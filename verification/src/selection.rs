use vstd::prelude::*;
use crate::geometry::{Point, NormRect, spec_normalize, normalize};

verus! {

/// The left pointer button, the only one that starts or finishes a drag.
pub const LEFT_BUTTON: u8 = 1;

/// The keycode of the cancel key (Escape on a standard keymap).
pub const CANCEL_KEYCODE: u8 = 9;

/// The drag lifecycle: idle, or one active drag from `start` to `current`.
/// Only one drag may ever be active; a second press while dragging is
/// ignored.
#[derive(Clone, Copy, PartialEq, Eq, Structural, Debug)]
pub enum SelectionState {
    Idle,
    Dragging { start: Point, current: Point },
}

/// One input event fetched from the display server, reduced to the plain
/// values the state machine reads.
#[derive(Clone, Copy, PartialEq, Eq, Structural, Debug)]
pub enum InputEvent {
    /// The window needs repainting.
    Expose,
    /// A pointer button went down at `pos`.
    ButtonPress { button: u8, pos: Point },
    /// The pointer moved to `pos`.
    Motion { pos: Point },
    /// A pointer button went up at `pos`.
    ButtonRelease { button: u8, pos: Point },
    /// A key went down.
    KeyPress { keycode: u8 },
    /// Any event the tool does not react to.
    Other,
}

/// How the event loop ends.
#[derive(Clone, Copy, PartialEq, Eq, Structural, Debug)]
pub enum LoopExit {
    /// A drag finished with positive area: extract this normalized
    /// rectangle from the live screen.
    Extract(NormRect),
    /// The cancel key was pressed: terminate without extraction.
    Cancelled,
}

/// The outcome of consuming one event: the next selection state, whether
/// the overlay must be redrawn, and whether the loop terminates.
#[derive(Clone, Copy, PartialEq, Eq, Structural, Debug)]
pub struct Step {
    pub next: SelectionState,
    pub redraw: bool,
    pub exit: Option<LoopExit>,
}

/// The selection state machine's transition relation, one event at a time:
///
/// * Idle + left press at p: start a drag at p, redraw.
/// * Dragging + motion to p: move the drag's current corner, redraw.
/// * Dragging + left release at p: back to idle; if the normalized
///   rectangle has positive area the loop exits to extract it, otherwise
///   the drag is discarded and the loop continues.
/// * Any state + cancel key: the loop exits without extraction.
/// * Any state + expose: redraw, state unchanged.
/// * Everything else is ignored.
pub open spec fn spec_step(state: SelectionState, event: InputEvent) -> Step {
    match event {
        InputEvent::Expose => Step { next: state, redraw: true, exit: None },
        InputEvent::ButtonPress { button, pos } => {
            if button == LEFT_BUTTON && state is Idle {
                Step {
                    next: SelectionState::Dragging { start: pos, current: pos },
                    redraw: true,
                    exit: None,
                }
            } else {
                Step { next: state, redraw: false, exit: None }
            }
        },
        InputEvent::Motion { pos } => {
            match state {
                SelectionState::Dragging { start, current } => Step {
                    next: SelectionState::Dragging { start, current: pos },
                    redraw: true,
                    exit: None,
                },
                SelectionState::Idle => Step { next: state, redraw: false, exit: None },
            }
        },
        InputEvent::ButtonRelease { button, pos } => {
            match state {
                SelectionState::Dragging { start, current } => {
                    if button == LEFT_BUTTON {
                        let rect = spec_normalize(start, pos);
                        if rect.width > 0 && rect.height > 0 {
                            Step {
                                next: SelectionState::Idle,
                                redraw: false,
                                exit: Some(LoopExit::Extract(rect)),
                            }
                        } else {
                            Step { next: SelectionState::Idle, redraw: false, exit: None }
                        }
                    } else {
                        Step { next: state, redraw: false, exit: None }
                    }
                },
                SelectionState::Idle => Step { next: state, redraw: false, exit: None },
            }
        },
        InputEvent::KeyPress { keycode } => {
            if keycode == CANCEL_KEYCODE {
                Step { next: state, redraw: false, exit: Some(LoopExit::Cancelled) }
            } else {
                Step { next: state, redraw: false, exit: None }
            }
        },
        InputEvent::Other => Step { next: state, redraw: false, exit: None },
    }
}

/// Consume one input event and decide the next selection state, whether to
/// redraw, and whether the loop terminates.
pub fn step(state: SelectionState, event: InputEvent) -> (r: Step)
    ensures
        r == spec_step(state, event),
{
    match event {
        InputEvent::Expose => Step { next: state, redraw: true, exit: None },
        InputEvent::ButtonPress { button, pos } => {
            if button == LEFT_BUTTON && matches!(state, SelectionState::Idle) {
                Step {
                    next: SelectionState::Dragging { start: pos, current: pos },
                    redraw: true,
                    exit: None,
                }
            } else {
                Step { next: state, redraw: false, exit: None }
            }
        },
        InputEvent::Motion { pos } => {
            match state {
                SelectionState::Dragging { start, current: _ } => Step {
                    next: SelectionState::Dragging { start, current: pos },
                    redraw: true,
                    exit: None,
                },
                SelectionState::Idle => Step { next: state, redraw: false, exit: None },
            }
        },
        InputEvent::ButtonRelease { button, pos } => {
            match state {
                SelectionState::Dragging { start, current: _ } => {
                    if button == LEFT_BUTTON {
                        let rect = normalize(start, pos);
                        if rect.width > 0 && rect.height > 0 {
                            Step {
                                next: SelectionState::Idle,
                                redraw: false,
                                exit: Some(LoopExit::Extract(rect)),
                            }
                        } else {
                            Step { next: SelectionState::Idle, redraw: false, exit: None }
                        }
                    } else {
                        Step { next: state, redraw: false, exit: None }
                    }
                },
                SelectionState::Idle => Step { next: state, redraw: false, exit: None },
            }
        },
        InputEvent::KeyPress { keycode } => {
            if keycode == CANCEL_KEYCODE {
                Step { next: state, redraw: false, exit: Some(LoopExit::Cancelled) }
            } else {
                Step { next: state, redraw: false, exit: None }
            }
        },
        InputEvent::Other => Step { next: state, redraw: false, exit: None },
    }
}

/// Pressing the cancel key terminates the loop from every state, always
/// without extraction: cancellation is available at any point during or
/// before a drag.
pub proof fn lemma_cancel_always_exits(state: SelectionState)
    ensures
        spec_step(state, InputEvent::KeyPress { keycode: CANCEL_KEYCODE }).exit == Some(
            LoopExit::Cancelled,
        ),
{
}

/// A release whose drag spans zero width or zero height discards the drag:
/// the machine returns to idle and the loop continues without extraction.
pub proof fn lemma_zero_area_release_discards(start: Point, current: Point, release: Point)
    requires
        start.x == release.x || start.y == release.y,
    ensures
        spec_step(
            SelectionState::Dragging { start, current },
            InputEvent::ButtonRelease { button: LEFT_BUTTON, pos: release },
        ) == (Step { next: SelectionState::Idle, redraw: false, exit: None::<LoopExit> }),
{
}

/// A release with positive area in both directions exits the loop with
/// exactly the normalized rectangle of the drag's endpoints.
pub proof fn lemma_positive_release_extracts(start: Point, current: Point, release: Point)
    requires
        start.x != release.x,
        start.y != release.y,
    ensures
        spec_step(
            SelectionState::Dragging { start, current },
            InputEvent::ButtonRelease { button: LEFT_BUTTON, pos: release },
        ).exit == Some(LoopExit::Extract(spec_normalize(start, release))),
{
}

} // verus!
