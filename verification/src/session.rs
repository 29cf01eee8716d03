use vstd::prelude::*;
use crate::selection::{SelectionState, InputEvent, LoopExit, Step, spec_step, step};

verus! {

/// The exit that a run of the event loop reaches on a given event stream,
/// starting from `state`: events are consumed one at a time, each fully
/// handled before the next, and the first terminating transition ends the
/// run. `None` means the stream ran out before the loop terminated.
pub open spec fn spec_run(state: SelectionState, events: Seq<InputEvent>) -> Option<LoopExit>
    decreases events.len(),
{
    if events.len() == 0 {
        None
    } else {
        let st = spec_step(state, events[0]);
        if st.exit is Some {
            st.exit
        } else {
            spec_run(st.next, events.skip(1))
        }
    }
}

/// Drive the selection state machine over a whole event stream, starting
/// idle, and report how the loop ended. The tool is single-shot: the first
/// terminating transition ends the run and every later event is left
/// unconsumed.
pub fn run_session(events: &Vec<InputEvent>) -> (r: Option<LoopExit>)
    ensures
        r == spec_run(SelectionState::Idle, events@),
{
    let mut state = SelectionState::Idle;
    let mut i: usize = 0;
    proof {
        assert(events@.skip(0) =~= events@);
    }
    while i < events.len()
        invariant
            i <= events@.len(),
            spec_run(SelectionState::Idle, events@) == spec_run(state, events@.skip(i as int)),
        decreases events@.len() - i,
    {
        let st = step(state, events[i]);
        proof {
            assert(events@.skip(i as int)[0] == events@[i as int]);
            assert(events@.skip(i as int).skip(1) =~= events@.skip(i as int + 1));
        }
        match st.exit {
            Some(exit) => {
                return Some(exit);
            },
            None => {
                state = st.next;
            },
        }
        i = i + 1;
    }
    proof {
        assert(events@.skip(i as int).len() == 0);
    }
    None
}

/// An event stream that never contains a cancel key press and never
/// contains a left-button release cannot terminate the loop: the run ends
/// only by exhausting the stream.
pub proof fn lemma_no_finishing_event_no_exit(state: SelectionState, events: Seq<InputEvent>)
    requires
        forall|i: int|
            0 <= i < events.len() ==> spec_step_exit_free(#[trigger] events[i]),
    ensures
        spec_run(state, events) is None,
    decreases events.len(),
{
    if events.len() > 0 {
        let st = spec_step(state, events[0]);
        assert(spec_step_exit_free(events[0]));
        assert(st.exit is None);
        assert(forall|i: int|
            0 <= i < events.skip(1).len() ==> spec_step_exit_free(#[trigger] events.skip(1)[i]));
        lemma_no_finishing_event_no_exit(st.next, events.skip(1));
    }
}

/// Whether an event can never terminate the loop, in any state: it is
/// neither a cancel key press nor a left-button release.
pub open spec fn spec_step_exit_free(event: InputEvent) -> bool {
    match event {
        InputEvent::KeyPress { keycode } => keycode != crate::selection::CANCEL_KEYCODE,
        InputEvent::ButtonRelease { button, .. } => button != crate::selection::LEFT_BUTTON,
        _ => true,
    }
}

} // verus!
