use egui_citro3d::ime::{ImeStage, ImeState};
use egui_citro3d::input::{InputEvent, Key, Modifiers};

fn key(k: Key, pressed: bool, m: Modifiers) -> InputEvent {
    InputEvent::Key { key: k, pressed, modifiers: m }
}

#[test]
fn next_walks_the_stages_and_stops_at_nothing() {
    let mut s = ImeStage::START;
    let expected = [
        ImeStage::SelectAllUp,
        ImeStage::BackSpaceDown,
        ImeStage::BackSpaceUp,
        ImeStage::PutText,
        ImeStage::EscapeDown,
        ImeStage::EscapeUp,
        ImeStage::Nothing,
        ImeStage::Nothing,
    ];
    for e in expected {
        s = s.next();
        assert_eq!(s, e);
    }
    assert_eq!(ImeStage::CANCEL.next().next(), ImeStage::Nothing);
}

#[test]
fn add_event_only_put_text_asks_for_text() {
    let mut events = Vec::new();
    assert!(ImeStage::PutText.add_event(&mut events));
    assert!(events.is_empty());
    assert!(!ImeStage::Nothing.add_event(&mut events));
    assert!(events.is_empty());
    assert!(!ImeStage::SelectAllDown.add_event(&mut events));
    assert_eq!(events, vec![key(Key::A, true, Modifiers::Command)]);
}

#[test]
fn confirmed_keyboard_replays_text() {
    let mut st = ImeState::new();
    assert!(st.wants_keyboard(true));
    assert!(!st.wants_keyboard(false));
    st.keyboard_closed("hello".to_string(), true);
    assert_eq!(st.stage, ImeStage::START);
    assert!(!st.wants_keyboard(true));
    let mut events = Vec::new();
    for _ in 0..7 {
        st.emit_events(&mut events);
    }
    assert_eq!(
        events,
        vec![
            key(Key::A, true, Modifiers::Command),
            key(Key::A, false, Modifiers::Command),
            key(Key::Backspace, true, Modifiers::NoModifiers),
            key(Key::Backspace, false, Modifiers::NoModifiers),
            InputEvent::Text("hello".to_string()),
            key(Key::Escape, true, Modifiers::NoModifiers),
            key(Key::Escape, false, Modifiers::NoModifiers),
        ]
    );
    assert_eq!(st.stage, ImeStage::Nothing);
    assert_eq!(st.text, None);
}

#[test]
fn cancelled_keyboard_only_escapes() {
    let mut st = ImeState::new();
    st.keyboard_closed("ignored".to_string(), false);
    assert_eq!(st.stage, ImeStage::CANCEL);
    assert_eq!(st.text, None);
    let mut events = Vec::new();
    st.emit_events(&mut events);
    st.emit_events(&mut events);
    st.emit_events(&mut events);
    assert_eq!(
        events,
        vec![
            key(Key::Escape, true, Modifiers::NoModifiers),
            key(Key::Escape, false, Modifiers::NoModifiers),
        ]
    );
}

#[test]
fn put_text_without_text_inserts_empty_text() {
    let mut st = ImeState { stage: ImeStage::PutText, text: None, number_text: None };
    let mut events = Vec::new();
    st.emit_events(&mut events);
    assert_eq!(events, vec![InputEvent::Text(String::new())]);
    assert_eq!(st.stage, ImeStage::EscapeDown);
}

#[test]
fn initial_text_prefers_text_and_forgets_both() {
    let mut st = ImeState::new();
    st.widget_clicked(Some("abc".to_string()), Some("1.5".to_string()));
    assert_eq!(st.take_initial_text(), Some("abc".to_string()));
    assert_eq!(st.text, None);
    assert_eq!(st.number_text, None);

    st.widget_clicked(None, Some("2".to_string()));
    assert_eq!(st.take_initial_text(), Some("2".to_string()));
    assert_eq!(st.take_initial_text(), None);
}

#[test]
fn clicks_during_replay_are_ignored() {
    let mut st = ImeState::new();
    st.keyboard_closed("x".to_string(), true);
    st.widget_clicked(Some("other".to_string()), None);
    assert_eq!(st.text, Some("x".to_string()));
}
