use egui_citro3d::input::{handle_input, InputEvent, KeyState, TouchPhase, TouchPos};

fn keys(down: bool, held: bool, up: bool, start: bool) -> KeyState {
    KeyState { touch_down: down, touch_held: held, touch_up: up, start_down: start }
}

#[test]
fn touch_start_presses_and_starts_at_touch_point() {
    let mut last = TouchPos::origin();
    let p = TouchPos { x: 10, y: 20 };
    let (events, start) = handle_input(&keys(true, true, false, false), p, &mut last);
    assert_eq!(
        events,
        vec![
            InputEvent::PointerButton { pos: p, pressed: true },
            InputEvent::Touch { phase: TouchPhase::Start, pos: p },
        ]
    );
    assert!(!start);
    assert_eq!(last, p);
}

#[test]
fn held_touch_moves() {
    let mut last = TouchPos { x: 1, y: 1 };
    let p = TouchPos { x: 30, y: 40 };
    let (events, _) = handle_input(&keys(false, true, false, false), p, &mut last);
    assert_eq!(
        events,
        vec![
            InputEvent::PointerButton { pos: p, pressed: true },
            InputEvent::Touch { phase: TouchPhase::Move, pos: p },
        ]
    );
    assert_eq!(last, p);
}

#[test]
fn release_is_reported_at_previous_position() {
    let mut last = TouchPos::origin();
    let p1 = TouchPos { x: 100, y: 50 };
    handle_input(&keys(true, true, false, false), p1, &mut last);
    // On release the hardware reports the origin as touch position.
    let (events, _) = handle_input(&keys(false, false, true, false), TouchPos::origin(), &mut last);
    assert_eq!(
        events,
        vec![
            InputEvent::PointerButton { pos: p1, pressed: false },
            InputEvent::Touch { phase: TouchPhase::End, pos: p1 },
        ]
    );
    assert_eq!(last, TouchPos::origin());
}

#[test]
fn no_touch_no_events_and_start_button_reported() {
    let mut last = TouchPos { x: 3, y: 4 };
    let (events, start) = handle_input(&keys(false, false, false, true), TouchPos { x: 5, y: 6 }, &mut last);
    assert!(events.is_empty());
    assert!(start);
    assert_eq!(last, TouchPos { x: 5, y: 6 });
}

#[test]
fn down_and_up_in_one_frame() {
    let mut last = TouchPos { x: 7, y: 8 };
    let p = TouchPos { x: 9, y: 10 };
    let (events, _) = handle_input(&keys(true, false, true, false), p, &mut last);
    assert_eq!(
        events,
        vec![
            InputEvent::Touch { phase: TouchPhase::Start, pos: p },
            InputEvent::PointerButton { pos: TouchPos { x: 7, y: 8 }, pressed: false },
            InputEvent::Touch { phase: TouchPhase::End, pos: TouchPos { x: 7, y: 8 } },
        ]
    );
}
