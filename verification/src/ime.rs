//! Replaying the text typed on the software keyboard into an egui text field.
//!
//! egui has no way to set a text field directly, so the text is typed in over
//! several frames: select all (Command+A), delete it (Backspace), insert the
//! new text, and leave the field (Escape). Cancelling the keyboard only
//! leaves the field.
use vstd::prelude::*;
use crate::input::{InputEvent, Key, Modifiers};

verus! {

/// The step of the keyboard replay that the next frame performs.
#[derive(Clone, Copy, PartialEq, Eq, Structural, Debug)]
pub enum ImeStage {
    Nothing,
    SelectAllDown,
    SelectAllUp,
    BackSpaceDown,
    BackSpaceUp,
    PutText,
    EscapeDown,
    EscapeUp,
}

/// The stage that follows `s`; the replay ends in `Nothing`, which stays.
pub open spec fn next_stage(s: ImeStage) -> ImeStage {
    match s {
        ImeStage::Nothing => ImeStage::Nothing,
        ImeStage::SelectAllDown => ImeStage::SelectAllUp,
        ImeStage::SelectAllUp => ImeStage::BackSpaceDown,
        ImeStage::BackSpaceDown => ImeStage::BackSpaceUp,
        ImeStage::BackSpaceUp => ImeStage::PutText,
        ImeStage::PutText => ImeStage::EscapeDown,
        ImeStage::EscapeDown => ImeStage::EscapeUp,
        ImeStage::EscapeUp => ImeStage::Nothing,
    }
}

/// A key event that is not a repeat.
pub open spec fn key_event(key: Key, pressed: bool, modifiers: Modifiers) -> InputEvent {
    InputEvent::Key { key: key, pressed: pressed, modifiers: modifiers }
}

/// The key event a stage contributes, if any. `PutText` contributes the text
/// itself, which the stage alone does not know.
pub open spec fn stage_events(s: ImeStage) -> Seq<InputEvent> {
    match s {
        ImeStage::Nothing => Seq::empty(),
        ImeStage::SelectAllDown => seq![key_event(Key::A, true, Modifiers::Command)],
        ImeStage::SelectAllUp => seq![key_event(Key::A, false, Modifiers::Command)],
        ImeStage::BackSpaceDown => seq![key_event(Key::Backspace, true, Modifiers::NoModifiers)],
        ImeStage::BackSpaceUp => seq![key_event(Key::Backspace, false, Modifiers::NoModifiers)],
        ImeStage::PutText => Seq::empty(),
        ImeStage::EscapeDown => seq![key_event(Key::Escape, true, Modifiers::NoModifiers)],
        ImeStage::EscapeUp => seq![key_event(Key::Escape, false, Modifiers::NoModifiers)],
    }
}

impl ImeStage {
    /// The first stage of a confirmed keyboard entry.
    pub const START: ImeStage = ImeStage::SelectAllDown;

    /// The first stage after the keyboard was cancelled.
    pub const CANCEL: ImeStage = ImeStage::EscapeDown;

    /// The stage of the following frame.
    pub fn next(self) -> (r: Self)
        ensures
            r == next_stage(self),
    {
        match self {
            ImeStage::Nothing => ImeStage::Nothing,
            ImeStage::SelectAllDown => ImeStage::SelectAllUp,
            ImeStage::SelectAllUp => ImeStage::BackSpaceDown,
            ImeStage::BackSpaceDown => ImeStage::BackSpaceUp,
            ImeStage::BackSpaceUp => ImeStage::PutText,
            ImeStage::PutText => ImeStage::EscapeDown,
            ImeStage::EscapeDown => ImeStage::EscapeUp,
            ImeStage::EscapeUp => ImeStage::Nothing,
        }
    }

    /// Appends this stage's key event to `events`; the result says whether
    /// this is the stage at which the caller must insert the text.
    pub fn add_event(self, events: &mut Vec<InputEvent>) -> (put_text: bool)
        ensures
            final(events)@ == old(events)@ + stage_events(self),
            put_text == (self == ImeStage::PutText),
    {
        let ghost before = events@;
        let put_text = match self {
            ImeStage::Nothing => false,
            ImeStage::SelectAllDown => {
                events.push(InputEvent::Key { key: Key::A, pressed: true, modifiers: Modifiers::Command });
                false
            },
            ImeStage::SelectAllUp => {
                events.push(InputEvent::Key { key: Key::A, pressed: false, modifiers: Modifiers::Command });
                false
            },
            ImeStage::BackSpaceDown => {
                events.push(
                    InputEvent::Key { key: Key::Backspace, pressed: true, modifiers: Modifiers::NoModifiers },
                );
                false
            },
            ImeStage::BackSpaceUp => {
                events.push(
                    InputEvent::Key { key: Key::Backspace, pressed: false, modifiers: Modifiers::NoModifiers },
                );
                false
            },
            ImeStage::PutText => true,
            ImeStage::EscapeDown => {
                events.push(
                    InputEvent::Key { key: Key::Escape, pressed: true, modifiers: Modifiers::NoModifiers },
                );
                false
            },
            ImeStage::EscapeUp => {
                events.push(
                    InputEvent::Key { key: Key::Escape, pressed: false, modifiers: Modifiers::NoModifiers },
                );
                false
            },
        };
        assert(events@ =~= before + stage_events(self));
        put_text
    }
}


/// The stage reached from `s` after `n` frames.
pub open spec fn stage_after(s: ImeStage, n: nat) -> ImeStage
    decreases n,
{
    if n == 0 {
        s
    } else {
        stage_after(next_stage(s), (n - 1) as nat)
    }
}

/// The events of one frame of replay at stage `s` while `text` is pending.
pub open spec fn frame_events(s: ImeStage, text: String) -> Seq<InputEvent> {
    if s == ImeStage::PutText {
        seq![InputEvent::Text(text)]
    } else {
        stage_events(s)
    }
}

/// The events of `n` frames of replay starting at stage `s`, with `text` as
/// the text inserted at the `PutText` stage.
pub open spec fn replay(s: ImeStage, text: String, n: nat) -> Seq<InputEvent>
    decreases n,
{
    if n == 0 {
        Seq::empty()
    } else {
        frame_events(s, text) + replay(next_stage(s), text, (n - 1) as nat)
    }
}

/// Whether `e` is the text event for the pending text `text`: the text
/// itself, or an empty string when there is none.
pub open spec fn is_text_event(e: InputEvent, text: Option<String>) -> bool {
    match e {
        InputEvent::Text(t) => match text {
            Some(o) => t == o,
            None => t@ == Seq::<char>::empty(),
        },
        _ => false,
    }
}

/// The keyboard replay between frames: the current stage, the text of the
/// text field the user last clicked (or that the keyboard returned), and the
/// value of the numeric field the user last clicked, already written out.
pub struct ImeState {
    pub stage: ImeStage,
    pub text: Option<String>,
    pub number_text: Option<String>,
}

impl ImeState {
    /// No replay running and no field remembered.
    pub fn new() -> (s: ImeState)
        ensures
            s.stage == ImeStage::Nothing,
            s.text is None,
            s.number_text is None,
    {
        ImeState { stage: ImeStage::Nothing, text: None, number_text: None }
    }

    /// Whether the software keyboard must be opened this frame: egui asks
    /// for text input and no replay is running.
    pub fn wants_keyboard(&self, ime_requested: bool) -> (r: bool)
        ensures
            r == (ime_requested && self.stage == ImeStage::Nothing),
    {
        ime_requested && self.stage == ImeStage::Nothing
    }

    /// The text the keyboard opens with: the remembered text if there is
    /// one, else the remembered number. Both are forgotten.
    pub fn take_initial_text(&mut self) -> (r: Option<String>)
        ensures
            r == (if old(self).text is Some {
                old(self).text
            } else {
                old(self).number_text
            }),
            final(self).stage == old(self).stage,
            final(self).text is None,
            final(self).number_text is None,
    {
        let text = self.text.take();
        let number = self.number_text.take();
        match text {
            Some(t) => Some(t),
            None => number,
        }
    }

    /// Records how the keyboard was closed: with the confirm button the
    /// returned text is replayed from `ImeStage::START`; otherwise only the
    /// field is left, from `ImeStage::CANCEL`.
    pub fn keyboard_closed(&mut self, text: String, confirmed: bool)
        ensures
            confirmed ==> final(self).stage == ImeStage::START && final(self).text == Some(text),
            !confirmed ==> final(self).stage == ImeStage::CANCEL && final(self).text == old(
                self,
            ).text,
            final(self).number_text == old(self).number_text,
    {
        if confirmed {
            self.text = Some(text);
            self.stage = ImeStage::START;
        } else {
            self.stage = ImeStage::CANCEL;
        }
    }

    /// Appends this frame's replay events to `events` and moves to the next
    /// stage. At `PutText` the pending text is inserted (an empty text when
    /// there is none) and forgotten.
    pub fn emit_events(&mut self, events: &mut Vec<InputEvent>)
        ensures
            final(self).stage == next_stage(old(self).stage),
            final(self).number_text == old(self).number_text,
            old(self).text matches Some(t) ==> final(events)@ == old(events)@ + frame_events(
                old(self).stage,
                t,
            ),
            old(self).stage != ImeStage::PutText ==> {
                &&& final(events)@ == old(events)@ + stage_events(old(self).stage)
                &&& final(self).text == old(self).text
            },
            old(self).stage == ImeStage::PutText ==> {
                &&& final(events)@.len() == old(events)@.len() + 1
                &&& final(events)@.take(old(events)@.len() as int) == old(events)@
                &&& is_text_event(final(events)@.last(), old(self).text)
                &&& final(self).text is None
            },
    {
        if self.stage.add_event(events) {
            let text = match self.text.take() {
                Some(t) => t,
                None => String::new(),
            };
            events.push(InputEvent::Text(text));
        }
        self.stage = self.stage.next();
    }

    /// Records the text field or numeric field the user clicked, unless a
    /// replay is running.
    pub fn widget_clicked(&mut self, text: Option<String>, number_text: Option<String>)
        ensures
            old(self).stage == ImeStage::Nothing ==> {
                &&& final(self).text == text
                &&& final(self).number_text == number_text
            },
            old(self).stage != ImeStage::Nothing ==> {
                &&& final(self).text == old(self).text
                &&& final(self).number_text == old(self).number_text
            },
            final(self).stage == old(self).stage,
    {
        if self.stage == ImeStage::Nothing {
            self.text = text;
            self.number_text = number_text;
        }
    }
}

/// Every replay ends: after seven frames any stage has reached `Nothing`,
/// and `Nothing` stays `Nothing`.
pub proof fn lemma_replay_ends(s: ImeStage)
    ensures
        stage_after(s, 7) == ImeStage::Nothing,
        next_stage(ImeStage::Nothing) == ImeStage::Nothing,
{
    reveal_with_fuel(stage_after, 8);
}

/// A confirmed entry replays, over seven frames, select-all, delete, the
/// confirmed text and leave-field, each key pressed and then released, and
/// ends with no replay running.
pub proof fn lemma_confirmed_replay(text: String)
    ensures
        replay(ImeStage::START, text, 7) == seq![
            InputEvent::Key { key: Key::A, pressed: true, modifiers: Modifiers::Command },
            InputEvent::Key { key: Key::A, pressed: false, modifiers: Modifiers::Command },
            InputEvent::Key { key: Key::Backspace, pressed: true, modifiers: Modifiers::NoModifiers },
            InputEvent::Key { key: Key::Backspace, pressed: false, modifiers: Modifiers::NoModifiers },
            InputEvent::Text(text),
            InputEvent::Key { key: Key::Escape, pressed: true, modifiers: Modifiers::NoModifiers },
            InputEvent::Key { key: Key::Escape, pressed: false, modifiers: Modifiers::NoModifiers },
        ],
        stage_after(ImeStage::START, 7) == ImeStage::Nothing,
{
    reveal_with_fuel(replay, 8);
    reveal_with_fuel(stage_after, 8);
    assert(replay(ImeStage::START, text, 7) =~= seq![
        InputEvent::Key { key: Key::A, pressed: true, modifiers: Modifiers::Command },
        InputEvent::Key { key: Key::A, pressed: false, modifiers: Modifiers::Command },
        InputEvent::Key { key: Key::Backspace, pressed: true, modifiers: Modifiers::NoModifiers },
        InputEvent::Key { key: Key::Backspace, pressed: false, modifiers: Modifiers::NoModifiers },
        InputEvent::Text(text),
        InputEvent::Key { key: Key::Escape, pressed: true, modifiers: Modifiers::NoModifiers },
        InputEvent::Key { key: Key::Escape, pressed: false, modifiers: Modifiers::NoModifiers },
    ]);
}

/// A cancelled entry only presses and releases Escape, inserts no text, and
/// ends with no replay running after two frames.
pub proof fn lemma_cancelled_replay(text: String)
    ensures
        replay(ImeStage::CANCEL, text, 2) == seq![
            InputEvent::Key { key: Key::Escape, pressed: true, modifiers: Modifiers::NoModifiers },
            InputEvent::Key { key: Key::Escape, pressed: false, modifiers: Modifiers::NoModifiers },
        ],
        stage_after(ImeStage::CANCEL, 2) == ImeStage::Nothing,
{
    reveal_with_fuel(replay, 3);
    reveal_with_fuel(stage_after, 3);
    assert(replay(ImeStage::CANCEL, text, 2) =~= seq![
        InputEvent::Key { key: Key::Escape, pressed: true, modifiers: Modifiers::NoModifiers },
        InputEvent::Key { key: Key::Escape, pressed: false, modifiers: Modifiers::NoModifiers },
    ]);
}

} // verus!
