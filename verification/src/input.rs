//! Touch-screen and button input, turned into the events egui consumes.
use vstd::prelude::*;

verus! {

/// A point on the touch screen, in screen pixels.
#[derive(Clone, Copy, PartialEq, Eq, Structural, Debug)]
pub struct TouchPos {
    pub x: u16,
    pub y: u16,
}

impl TouchPos {
    /// The top-left corner of the screen, where the pointer rests before the
    /// first touch.
    pub fn origin() -> (p: TouchPos)
        ensures
            p.x == 0,
            p.y == 0,
    {
        TouchPos { x: 0, y: 0 }
    }
}

/// The phase of a touch gesture.
#[derive(Clone, Copy, PartialEq, Eq, Structural, Debug)]
pub enum TouchPhase {
    Start,
    Move,
    End,
}

/// The keys that the library itself synthesises.
#[derive(Clone, Copy, PartialEq, Eq, Structural, Debug)]
pub enum Key {
    A,
    Backspace,
    Escape,
}

/// The modifier keys held with a synthesised key.
#[derive(Clone, Copy, PartialEq, Eq, Structural, Debug)]
pub enum Modifiers {
    NoModifiers,
    Command,
}

/// An input event for egui. Pointer and touch events always come from the
/// primary button and the single touch device; key events are never repeats.
#[derive(PartialEq, Eq, Debug)]
pub enum InputEvent {
    PointerButton { pos: TouchPos, pressed: bool },
    Touch { phase: TouchPhase, pos: TouchPos },
    Key { key: Key, pressed: bool, modifiers: Modifiers },
    Text(String),
}

/// The state of the buttons that matter to the library in one frame: whether
/// the touch screen went down this frame, is held, or was released, and
/// whether START went down this frame.
#[derive(Clone, Copy, PartialEq, Eq, Structural, Debug)]
pub struct KeyState {
    pub touch_down: bool,
    pub touch_held: bool,
    pub touch_up: bool,
    pub start_down: bool,
}

/// The events one frame of input produces: a primary-button press at the
/// touch point while the screen is held; a touch start (when the touch began
/// this frame) or a touch move (while held) at the touch point; and, when the
/// touch ended this frame, a button release followed by a touch end, both at
/// the position recorded in the previous frame.
pub open spec fn touch_events(keys: KeyState, pos: TouchPos, last: TouchPos) -> Seq<InputEvent> {
    let press = if keys.touch_held {
        seq![InputEvent::PointerButton { pos: pos, pressed: true }]
    } else {
        Seq::empty()
    };
    let touch = if keys.touch_down {
        seq![InputEvent::Touch { phase: TouchPhase::Start, pos: pos }]
    } else if keys.touch_held {
        seq![InputEvent::Touch { phase: TouchPhase::Move, pos: pos }]
    } else {
        Seq::empty()
    };
    let release = if keys.touch_up {
        seq![
            InputEvent::PointerButton { pos: last, pressed: false },
            InputEvent::Touch { phase: TouchPhase::End, pos: last },
        ]
    } else {
        Seq::empty()
    };
    press + touch + release
}

/// Turns one frame of button state and the current touch position into egui
/// events, and records the touch position for the next frame. The second
/// result says whether START went down, which ends the application.
pub fn handle_input(keys: &KeyState, touch: TouchPos, last_pos: &mut TouchPos) -> (r: (
    Vec<InputEvent>,
    bool,
))
    ensures
        r.0@ == touch_events(*keys, touch, *old(last_pos)),
        forall|i: int|
            0 <= i < r.0@.len() && (is_press(#[trigger] r.0@[i]) || is_touch(
                r.0@[i],
                TouchPhase::Start,
            ) || is_touch(r.0@[i], TouchPhase::Move)) ==> event_pos(r.0@[i]) == Some(touch),
        forall|i: int|
            0 <= i < r.0@.len() && is_touch(#[trigger] r.0@[i], TouchPhase::Start)
                ==> keys.touch_down,
        forall|i: int|
            0 <= i < r.0@.len() && is_touch(#[trigger] r.0@[i], TouchPhase::Move)
                ==> !keys.touch_down,
        r.1 == keys.start_down,
        *final(last_pos) == touch,
{
    let mut events: Vec<InputEvent> = Vec::new();
    if keys.touch_held {
        events.push(InputEvent::PointerButton { pos: touch, pressed: true });
    }
    if keys.touch_down {
        events.push(InputEvent::Touch { phase: TouchPhase::Start, pos: touch });
    } else if keys.touch_held {
        events.push(InputEvent::Touch { phase: TouchPhase::Move, pos: touch });
    }
    if keys.touch_up {
        events.push(InputEvent::PointerButton { pos: *last_pos, pressed: false });
        events.push(InputEvent::Touch { phase: TouchPhase::End, pos: *last_pos });
    }
    *last_pos = touch;
    assert(events@ =~= touch_events(*keys, touch, *old(last_pos)));
    (events, keys.start_down)
}


/// A touch that ends is reported, last, as a release of the primary button
/// followed by the end of the touch, both at the position the touch was last
/// seen at (which `handle_input` records in the frame before); no other event
/// of the frame is a release.
pub proof fn lemma_release_at_last_seen(keys: KeyState, pos: TouchPos, last: TouchPos)
    requires
        keys.touch_up,
    ensures
        ({
            let ev = touch_events(keys, pos, last);
            &&& ev.len() >= 2
            &&& ev[ev.len() - 2] == InputEvent::PointerButton { pos: last, pressed: false }
            &&& ev[ev.len() - 1] == InputEvent::Touch { phase: TouchPhase::End, pos: last }
            &&& forall|i: int|
                0 <= i < ev.len() - 2 ==> ev[i] != InputEvent::PointerButton {
                    pos: last,
                    pressed: false,
                } && !(ev[i] matches InputEvent::Touch { phase: TouchPhase::End, .. })
        }),
{
}

/// A frame without any touch produces no events.
pub proof fn lemma_no_touch_no_events(keys: KeyState, pos: TouchPos, last: TouchPos)
    requires
        !keys.touch_down,
        !keys.touch_held,
        !keys.touch_up,
    ensures
        touch_events(keys, pos, last) == Seq::<InputEvent>::empty(),
{
    assert(touch_events(keys, pos, last) =~= Seq::<InputEvent>::empty());
}


/// The position of a pointer or touch event.
pub open spec fn event_pos(e: InputEvent) -> Option<TouchPos> {
    match e {
        InputEvent::PointerButton { pos, .. } => Some(pos),
        InputEvent::Touch { pos, .. } => Some(pos),
        _ => None,
    }
}

/// Whether `e` presses the primary button.
pub open spec fn is_press(e: InputEvent) -> bool {
    match e {
        InputEvent::PointerButton { pressed, .. } => pressed,
        _ => false,
    }
}

/// Whether `e` is a touch event in phase `phase`.
pub open spec fn is_touch(e: InputEvent, phase: TouchPhase) -> bool {
    match e {
        InputEvent::Touch { phase: p, .. } => p == phase,
        _ => false,
    }
}

/// Every press of the primary button and every touch start or move of a
/// frame is at exactly the touch point of that frame, whatever the keys and
/// the previous position.
pub proof fn lemma_presses_and_moves_at_touch_point(
    keys: KeyState,
    pos: TouchPos,
    last: TouchPos,
    i: int,
)
    requires
        0 <= i < touch_events(keys, pos, last).len(),
    ensures
        ({
            let e = touch_events(keys, pos, last)[i];
            (is_press(e) || is_touch(e, TouchPhase::Start) || is_touch(e, TouchPhase::Move))
                ==> event_pos(e) == Some(pos)
        }),
{
}

/// A touch start is reported exactly in the frame the touch went down; a
/// touch that is held without going down this frame is reported as a move at
/// the touch point, whatever the previous position; a frame with the touch
/// held first presses the primary button at the touch point.
pub proof fn lemma_touch_phase(keys: KeyState, pos: TouchPos, last: TouchPos)
    ensures
        ({
            let ev = touch_events(keys, pos, last);
            &&& (exists|i: int| 0 <= i < ev.len() && is_touch(#[trigger] ev[i], TouchPhase::Start))
                == keys.touch_down
            &&& (keys.touch_held && !keys.touch_down) ==> (ev.len() >= 2 && ev[1]
                == InputEvent::Touch { phase: TouchPhase::Move, pos: pos })
            &&& keys.touch_held ==> (ev.len() >= 1 && ev[0] == InputEvent::PointerButton {
                pos: pos,
                pressed: true,
            })
            &&& keys.touch_down ==> (exists|i: int|
                0 <= i < ev.len() && #[trigger] ev[i] == InputEvent::Touch {
                    phase: TouchPhase::Start,
                    pos: pos,
                })
        }),
{
    let ev = touch_events(keys, pos, last);
    if keys.touch_down {
        let i: int = if keys.touch_held {
            1
        } else {
            0
        };
        assert(ev[i] == InputEvent::Touch { phase: TouchPhase::Start, pos: pos });
        assert(is_touch(ev[i], TouchPhase::Start));
    }
}


/// A frame has one press while held, one start or move while down or held,
/// and a release with a touch end when the touch ended, and nothing else; the
/// primary button is pressed only while the touch is held.
pub proof fn lemma_event_count(keys: KeyState, pos: TouchPos, last: TouchPos)
    ensures
        touch_events(keys, pos, last).len() == (if keys.touch_held {
            1int
        } else {
            0int
        }) + (if keys.touch_down || keys.touch_held {
            1int
        } else {
            0int
        }) + (if keys.touch_up {
            2int
        } else {
            0int
        }),
        forall|i: int|
            0 <= i < touch_events(keys, pos, last).len() && is_press(
                #[trigger] touch_events(keys, pos, last)[i],
            ) ==> keys.touch_held,
{
}

} // verus!
