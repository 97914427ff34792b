//! The run loop of the whole tool: run the command once unless held, then
//! alternate confirmation screen and command run until the user declines.
//! The loop's observable behaviour is a trace of actions, driven by the key
//! events the prompts consume from one stream.

use vstd::prelude::*;

use crate::key::KeyEvent;
use crate::key::ScreenState;
use crate::key::is_confirm_press;
use crate::key::is_quit_press;
use crate::key::step;

verus! {

/// One observable action of the run loop: executing the command once, or
/// showing the confirmation screen once (one enter/leave pair of the
/// alternate screen).
#[derive(Clone, Copy, PartialEq, Eq, Structural, Debug)]
pub enum Action {
    Run,
    Prompt,
}

/// The actions taken once a prompt is on screen, as the remaining events
/// arrive: a 'q' press ends the session; an Enter press runs the command and
/// shows the next prompt; every other event is ignored. A stream that runs
/// out leaves the screen waiting, with nothing more done.
pub open spec fn spec_prompt_actions(events: Seq<KeyEvent>) -> Seq<Action>
    decreases events.len(),
{
    if events.len() == 0 {
        Seq::empty()
    } else if is_quit_press(events[0]) {
        Seq::empty()
    } else if is_confirm_press(events[0]) {
        seq![Action::Run, Action::Prompt] + spec_prompt_actions(events.drop_first())
    } else {
        spec_prompt_actions(events.drop_first())
    }
}

/// The whole session's actions: one initial run unless held back, then the
/// first prompt, then whatever the key events cause.
pub open spec fn spec_session(hold: bool, events: Seq<KeyEvent>) -> Seq<Action> {
    if hold {
        seq![Action::Prompt] + spec_prompt_actions(events)
    } else {
        seq![Action::Run, Action::Prompt] + spec_prompt_actions(events)
    }
}

/// Whether the session ends by the user declining, rather than by the event
/// stream running out with a prompt still waiting.
pub open spec fn spec_declines(events: Seq<KeyEvent>) -> bool
    decreases events.len(),
{
    if events.len() == 0 {
        false
    } else if is_quit_press(events[0]) {
        true
    } else {
        spec_declines(events.drop_first())
    }
}

/// Play the whole session against a simulated event stream. Returns the
/// trace of actions and whether the session ended by the user declining:
/// only then does the tool exit; a stream that runs out leaves it waiting.
pub fn run_session(hold: bool, events: &Vec<KeyEvent>) -> (r: (Vec<Action>, bool))
    ensures
        r.0@ == spec_session(hold, events@),
        r.1 == spec_declines(events@),
{
    let mut acts: Vec<Action> = Vec::new();
    if !hold {
        acts.push(Action::Run);
    }
    acts.push(Action::Prompt);
    proof {
        assert(events@.skip(0) =~= events@);
        assert(acts@ + spec_prompt_actions(events@) =~= spec_session(hold, events@));
    }
    let mut declined = false;
    let mut i: usize = 0;
    while i < events.len()
        invariant_except_break
            i <= events.len(),
            !declined,
            acts@ + spec_prompt_actions(events@.skip(i as int)) == spec_session(hold, events@),
            spec_declines(events@.skip(i as int)) == spec_declines(events@),
        ensures
            acts@ == spec_session(hold, events@),
            declined == spec_declines(events@),
        decreases events.len() - i,
    {
        proof {
            assert(events@.skip(i as int)[0] == events@[i as int]);
            assert(events@.skip(i as int).drop_first() =~= events@.skip(i as int + 1));
        }
        match step(ScreenState::Active, &events[i]) {
            ScreenState::Declined => {
                proof {
                    assert(acts@ + Seq::<Action>::empty() =~= acts@);
                }
                declined = true;
                break ;
            },
            ScreenState::Confirmed => {
                acts.push(Action::Run);
                acts.push(Action::Prompt);
            },
            ScreenState::Active => {},
        }
        i = i + 1;
    }
    proof {
        if !declined {
            assert(events@.skip(events@.len() as int) =~= Seq::<KeyEvent>::empty());
            assert(acts@ + Seq::<Action>::empty() =~= acts@);
        }
    }
    (acts, declined)
}

/// With `hold` unset the command runs exactly once before the first prompt
/// is shown; with `hold` set the session's first action is the prompt.
pub proof fn lemma_first_action(hold: bool, events: Seq<KeyEvent>)
    ensures
        !hold ==> {
            &&& spec_session(hold, events).len() >= 2
            &&& spec_session(hold, events)[0] == Action::Run
            &&& spec_session(hold, events)[1] == Action::Prompt
        },
        hold ==> {
            &&& spec_session(hold, events).len() >= 1
            &&& spec_session(hold, events)[0] == Action::Prompt
        },
{
}

/// The session declines exactly when the stream holds a 'q' press anywhere:
/// every event before it is either ignored or confirms one more run, so no
/// prefix can end the session first.
pub proof fn lemma_declines_iff_quit_press(events: Seq<KeyEvent>)
    ensures
        spec_declines(events) <==> exists|i: int|
            0 <= i < events.len() && is_quit_press(events[i]),
    decreases events.len(),
{
    if events.len() > 0 {
        lemma_declines_iff_quit_press(events.drop_first());
        if spec_declines(events) {
            if is_quit_press(events[0]) {
                assert(is_quit_press(events[0]));
            } else {
                let j = choose|j: int|
                    0 <= j < events.drop_first().len() && is_quit_press(events.drop_first()[j]);
                assert(events[j + 1] == events.drop_first()[j]);
            }
        } else {
            assert forall|i: int| 0 <= i < events.len() implies !is_quit_press(events[i]) by {
                if i > 0 {
                    assert(events.drop_first()[i - 1] == events[i]);
                }
            }
        }
    }
}

} // verus!
