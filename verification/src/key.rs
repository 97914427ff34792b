//! Keyboard events as the confirmation screen sees them, and the screen's
//! three-state machine: Active until a press of 'q' (decline) or Enter
//! (confirm); releases and all other keys leave the state alone.

use vstd::prelude::*;

verus! {

/// Whether a key was pushed down or released; only presses act.
#[derive(Clone, Copy, PartialEq, Eq, Structural, Debug)]
pub enum KeyKind {
    Press,
    Release,
}

/// The key codes the confirmation screen distinguishes.
#[derive(Clone, Copy, PartialEq, Eq, Debug)]
pub enum KeyCode {
    Char(char),
    Enter,
    Other,
}

/// A single keyboard event as the terminal reports it.
#[derive(Clone, Copy, PartialEq, Eq, Debug)]
pub struct KeyEvent {
    pub kind: KeyKind,
    pub code: KeyCode,
}

/// The state of one confirmation-screen invocation. `Confirmed` and
/// `Declined` are terminal; the screen keeps polling while `Active`.
#[derive(Clone, Copy, PartialEq, Eq, Structural, Debug)]
pub enum ScreenState {
    Active,
    Confirmed,
    Declined,
}

/// A press of 'q': the user declines.
pub open spec fn is_quit_press(e: KeyEvent) -> bool {
    e.kind == KeyKind::Press && e.code == KeyCode::Char('q')
}

/// A press of Enter: the user confirms.
pub open spec fn is_confirm_press(e: KeyEvent) -> bool {
    e.kind == KeyKind::Press && e.code == KeyCode::Enter
}

/// One step of the screen's state machine. Terminal states absorb every
/// further event; from `Active`, only a 'q' press or an Enter press moves.
pub open spec fn spec_step(s: ScreenState, e: KeyEvent) -> ScreenState {
    if s != ScreenState::Active {
        s
    } else if is_quit_press(e) {
        ScreenState::Declined
    } else if is_confirm_press(e) {
        ScreenState::Confirmed
    } else {
        ScreenState::Active
    }
}

/// Advance the screen's state by one key event.
pub fn step(s: ScreenState, e: &KeyEvent) -> (r: ScreenState)
    ensures
        r == spec_step(s, *e),
{
    match s {
        ScreenState::Confirmed => ScreenState::Confirmed,
        ScreenState::Declined => ScreenState::Declined,
        ScreenState::Active => match (e.kind, e.code) {
            (KeyKind::Press, KeyCode::Char(c)) => {
                if c == 'q' {
                    ScreenState::Declined
                } else {
                    ScreenState::Active
                }
            },
            (KeyKind::Press, KeyCode::Enter) => ScreenState::Confirmed,
            _ => ScreenState::Active,
        },
    }
}

/// A key release never moves the machine out of any state: releases are
/// ignored, whatever the key code.
pub proof fn lemma_release_is_ignored(s: ScreenState, e: KeyEvent)
    requires
        e.kind == KeyKind::Release,
    ensures
        spec_step(s, e) == s,
{
}

} // verus!
