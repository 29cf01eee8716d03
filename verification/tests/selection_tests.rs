use screengrab::geometry::{Point, NormRect, plan_extraction};
use screengrab::selection::{
    SelectionState, InputEvent, LoopExit, step, LEFT_BUTTON, CANCEL_KEYCODE,
};
use screengrab::session::run_session;

fn press(x: i16, y: i16) -> InputEvent {
    InputEvent::ButtonPress { button: LEFT_BUTTON, pos: Point { x, y } }
}

fn motion(x: i16, y: i16) -> InputEvent {
    InputEvent::Motion { pos: Point { x, y } }
}

fn release(x: i16, y: i16) -> InputEvent {
    InputEvent::ButtonRelease { button: LEFT_BUTTON, pos: Point { x, y } }
}

fn escape() -> InputEvent {
    InputEvent::KeyPress { keycode: CANCEL_KEYCODE }
}

#[test]
fn idle_left_press_starts_drag_and_redraws() {
    let st = step(SelectionState::Idle, press(100, 200));
    assert_eq!(
        st.next,
        SelectionState::Dragging { start: Point { x: 100, y: 200 }, current: Point { x: 100, y: 200 } }
    );
    assert!(st.redraw);
    assert_eq!(st.exit, None);
}

#[test]
fn idle_other_button_is_ignored() {
    let st = step(
        SelectionState::Idle,
        InputEvent::ButtonPress { button: 3, pos: Point { x: 1, y: 1 } },
    );
    assert_eq!(st.next, SelectionState::Idle);
    assert!(!st.redraw);
    assert_eq!(st.exit, None);
}

#[test]
fn second_press_while_dragging_is_ignored() {
    let dragging = SelectionState::Dragging {
        start: Point { x: 1, y: 2 },
        current: Point { x: 3, y: 4 },
    };
    let st = step(dragging, press(50, 50));
    assert_eq!(st.next, dragging);
    assert!(!st.redraw);
    assert_eq!(st.exit, None);
}

#[test]
fn motion_moves_current_corner_and_redraws() {
    let dragging = SelectionState::Dragging {
        start: Point { x: 1, y: 2 },
        current: Point { x: 3, y: 4 },
    };
    let st = step(dragging, motion(30, 40));
    assert_eq!(
        st.next,
        SelectionState::Dragging { start: Point { x: 1, y: 2 }, current: Point { x: 30, y: 40 } }
    );
    assert!(st.redraw);
    assert_eq!(st.exit, None);
}

#[test]
fn motion_while_idle_is_ignored() {
    let st = step(SelectionState::Idle, motion(30, 40));
    assert_eq!(st.next, SelectionState::Idle);
    assert!(!st.redraw);
}

#[test]
fn expose_redraws_without_state_change() {
    let st = step(SelectionState::Idle, InputEvent::Expose);
    assert_eq!(st.next, SelectionState::Idle);
    assert!(st.redraw);
    assert_eq!(st.exit, None);
}

#[test]
fn release_with_positive_area_exits_with_normalized_rect() {
    let dragging = SelectionState::Dragging {
        start: Point { x: 500, y: 600 },
        current: Point { x: 120, y: 210 },
    };
    let st = step(dragging, release(100, 200));
    assert_eq!(st.next, SelectionState::Idle);
    assert_eq!(
        st.exit,
        Some(LoopExit::Extract(NormRect { x: 100, y: 200, width: 400, height: 400 }))
    );
}

#[test]
fn escape_cancels_from_any_state() {
    let st = step(SelectionState::Idle, escape());
    assert_eq!(st.exit, Some(LoopExit::Cancelled));
    let dragging = SelectionState::Dragging {
        start: Point { x: 1, y: 2 },
        current: Point { x: 3, y: 4 },
    };
    let st = step(dragging, escape());
    assert_eq!(st.exit, Some(LoopExit::Cancelled));
    assert_eq!(st.next, dragging);
}

#[test]
fn other_keys_are_ignored() {
    let st = step(SelectionState::Idle, InputEvent::KeyPress { keycode: 38 });
    assert_eq!(st.next, SelectionState::Idle);
    assert_eq!(st.exit, None);
}

#[test]
fn drag_session_extracts_normalized_region() {
    // Screen 1920 x 1080: press at (100, 200), drag to (500, 600), release.
    let events = vec![press(100, 200), motion(500, 600), release(500, 600)];
    let exit = run_session(&events);
    let rect = match exit {
        Some(LoopExit::Extract(rect)) => rect,
        other => panic!("expected extraction, got {:?}", other),
    };
    assert_eq!(rect, NormRect { x: 100, y: 200, width: 400, height: 400 });
    let region = plan_extraction(rect, 1920, 1080).unwrap();
    assert_eq!(region.x, 100);
    assert_eq!(region.y, 200);
    assert_eq!(region.width, 400);
    assert_eq!(region.height, 400);
    let img = screengrab::capture::capture_from_reply(
        &region,
        vec![0u8; 400 * 400 * 4],
    )
    .unwrap();
    assert_eq!(img.width(), 400);
    assert_eq!(img.height(), 400);
}

#[test]
fn zero_area_drag_discards_and_continues() {
    // Press and release at the same point: no extraction, back to idle,
    // and the loop keeps consuming events.
    let events = vec![press(300, 300), release(300, 300)];
    assert_eq!(run_session(&events), None);
    // The loop is still alive afterwards: a later cancel still terminates it.
    let events = vec![press(300, 300), release(300, 300), escape()];
    assert_eq!(run_session(&events), Some(LoopExit::Cancelled));
}

#[test]
fn escape_terminates_before_and_during_drag() {
    assert_eq!(run_session(&vec![escape()]), Some(LoopExit::Cancelled));
    assert_eq!(
        run_session(&vec![press(10, 10), motion(50, 50), escape()]),
        Some(LoopExit::Cancelled)
    );
}

#[test]
fn session_is_single_shot() {
    // The first terminating transition ends the run; later events are
    // never consumed.
    let events = vec![
        press(0, 0),
        motion(10, 10),
        release(10, 10),
        press(20, 20),
        release(90, 90),
    ];
    assert_eq!(
        run_session(&events),
        Some(LoopExit::Extract(NormRect { x: 0, y: 0, width: 10, height: 10 }))
    );
}

#[test]
fn event_stream_without_finisher_exhausts() {
    let events = vec![press(1, 1), motion(2, 2), InputEvent::Expose, InputEvent::Other];
    assert_eq!(run_session(&events), None);
}
