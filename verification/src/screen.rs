//! One confirmation-screen invocation over a stream of key events: the state
//! it ends in, the boolean decision it maps to, and what kinds of streams
//! decline, confirm, or leave the screen waiting.

use vstd::prelude::*;

use crate::key::KeyEvent;
use crate::key::KeyKind;
use crate::key::ScreenState;
use crate::key::is_confirm_press;
use crate::key::is_quit_press;
use crate::key::spec_step;
use crate::key::step;

verus! {

/// An event that moves the screen out of `Active`: a 'q' press or an Enter
/// press.
pub open spec fn is_trigger(e: KeyEvent) -> bool {
    is_quit_press(e) || is_confirm_press(e)
}

/// The state the screen is in after processing a whole stream of events,
/// one `spec_step` per event, starting from `Active`.
pub open spec fn spec_outcome(events: Seq<KeyEvent>) -> ScreenState
    decreases events.len(),
{
    if events.len() == 0 {
        ScreenState::Active
    } else {
        spec_step(spec_outcome(events.drop_last()), events.last())
    }
}

/// Run one confirmation screen over a simulated event stream: `Some(true)`
/// when the user confirmed (an Enter press), `Some(false)` when the user
/// declined (a 'q' press), `None` when the stream ran out with the screen
/// still waiting.
pub fn confirm_screen(events: &Vec<KeyEvent>) -> (r: Option<bool>)
    ensures
        r == Some(true) <==> spec_outcome(events@) == ScreenState::Confirmed,
        r == Some(false) <==> spec_outcome(events@) == ScreenState::Declined,
        r is None <==> spec_outcome(events@) == ScreenState::Active,
{
    let mut s = ScreenState::Active;
    let mut i: usize = 0;
    while i < events.len()
        invariant
            i <= events.len(),
            s == spec_outcome(events@.take(i as int)),
        decreases events.len() - i,
    {
        s = step(s, &events[i]);
        proof {
            let t = events@.take(i as int + 1);
            assert(t.drop_last() =~= events@.take(i as int));
            assert(t.last() == events@[i as int]);
        }
        i = i + 1;
    }
    proof {
        assert(events@.take(events@.len() as int) =~= events@);
    }
    match s {
        ScreenState::Active => None,
        ScreenState::Confirmed => Some(true),
        ScreenState::Declined => Some(false),
    }
}

/// A stream with no triggering event leaves the screen `Active`: nothing but
/// a 'q' press or an Enter press ever ends the screen.
pub proof fn lemma_no_trigger_stays_active(events: Seq<KeyEvent>)
    requires
        forall|j: int| 0 <= j < events.len() ==> !is_trigger(events[j]),
    ensures
        spec_outcome(events) == ScreenState::Active,
    decreases events.len(),
{
    if events.len() > 0 {
        lemma_no_trigger_stays_active(events.drop_last());
    }
}

/// A stream of nothing but key releases leaves the screen `Active`: a
/// release never moves the machine, whatever the key code.
pub proof fn lemma_releases_stay_active(events: Seq<KeyEvent>)
    requires
        forall|j: int| 0 <= j < events.len() ==> events[j].kind == KeyKind::Release,
    ensures
        spec_outcome(events) == ScreenState::Active,
{
    lemma_no_trigger_stays_active(events);
}

/// A stream with some triggering event does not leave the screen `Active`.
pub proof fn lemma_trigger_ends_screen(events: Seq<KeyEvent>)
    requires
        exists|i: int| 0 <= i < events.len() && is_trigger(events[i]),
    ensures
        spec_outcome(events) != ScreenState::Active,
    decreases events.len(),
{
    let i = choose|i: int| 0 <= i < events.len() && is_trigger(events[i]);
    if i < events.len() - 1 {
        assert(events.drop_last()[i] == events[i]);
        lemma_trigger_ends_screen(events.drop_last());
    }
}

/// Without an Enter press the screen cannot end `Confirmed`.
pub proof fn lemma_no_confirm_press_no_confirm(events: Seq<KeyEvent>)
    requires
        forall|j: int| 0 <= j < events.len() ==> !is_confirm_press(events[j]),
    ensures
        spec_outcome(events) != ScreenState::Confirmed,
    decreases events.len(),
{
    if events.len() > 0 {
        lemma_no_confirm_press_no_confirm(events.drop_last());
    }
}

/// Without a 'q' press the screen cannot end `Declined`.
pub proof fn lemma_no_quit_press_no_decline(events: Seq<KeyEvent>)
    requires
        forall|j: int| 0 <= j < events.len() ==> !is_quit_press(events[j]),
    ensures
        spec_outcome(events) != ScreenState::Declined,
    decreases events.len(),
{
    if events.len() > 0 {
        lemma_no_quit_press_no_decline(events.drop_last());
    }
}

/// A stream whose only triggering events are 'q' presses, with at least one
/// of them, ends the screen `Declined`.
pub proof fn lemma_lone_quit_declines(events: Seq<KeyEvent>)
    requires
        exists|i: int| 0 <= i < events.len() && is_quit_press(events[i]),
        forall|j: int| 0 <= j < events.len() && is_trigger(events[j]) ==> is_quit_press(events[j]),
    ensures
        spec_outcome(events) == ScreenState::Declined,
{
    lemma_trigger_ends_screen(events);
    lemma_no_confirm_press_no_confirm(events);
}

/// A stream whose only triggering events are Enter presses, with at least
/// one of them, ends the screen `Confirmed`.
pub proof fn lemma_lone_confirm_confirms(events: Seq<KeyEvent>)
    requires
        exists|i: int| 0 <= i < events.len() && is_confirm_press(events[i]),
        forall|j: int| 0 <= j < events.len() && is_trigger(events[j]) ==> is_confirm_press(events[j]),
    ensures
        spec_outcome(events) == ScreenState::Confirmed,
{
    lemma_trigger_ends_screen(events);
    lemma_no_quit_press_no_decline(events);
}

} // verus!
