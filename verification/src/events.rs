//! Terminal events and their classification.
//!
//! Two background producers (a ticker and an input listener) feed one queue
//! of [`Event`]s. The producers and the queue live outside this crate; what
//! is verified here is the data they exchange and the classification of raw
//! terminal input into events: key-down presses become [`Event::KeyPress`],
//! key releases and repeats are dropped, pointer and resize notifications
//! pass through as their own variants, and focus or paste notifications are
//! dropped.

use vstd::prelude::*;

verus! {

/// A key on the keyboard, as far as this application tells keys apart:
/// a printable character, the escape key, or anything else.
#[derive(Clone, Copy, PartialEq, Eq, Structural, Debug)]
pub enum KeyCode {
    Char(char),
    Esc,
    Other,
}

/// One key press: the key, and whether the Control modifier (and no other
/// modifier) was held while it was pressed.
#[derive(Clone, Copy, PartialEq, Eq, Structural, Debug)]
pub struct KeyPress {
    pub code: KeyCode,
    pub control: bool,
}

/// Whether a raw keyboard notification reports a key going down, coming
/// back up, or auto-repeating. Only presses reach the application.
#[derive(Clone, Copy, PartialEq, Eq, Structural, Debug)]
pub enum KeyKind {
    Press,
    Release,
    Repeat,
}

/// A raw notification from the terminal input source, before classification.
#[derive(Clone, Copy, PartialEq, Eq, Structural, Debug)]
pub enum RawInput {
    Key { kind: KeyKind, key: KeyPress },
    Mouse,
    Resize(u16, u16),
    FocusGained,
    FocusLost,
    Paste,
}

/// A terminal size or resize notification, in character cells.
#[derive(Clone, Copy, PartialEq, Eq, Structural, Debug)]
pub struct Size {
    pub width: u16,
    pub height: u16,
}

/// Terminal events, as consumed one at a time by the main loop.
#[derive(Clone, Copy, PartialEq, Eq, Structural, Debug)]
pub enum Event {
    /// The tick event, sent at a regular interval by the ticker thread.
    Tick,
    /// A key press. Only key-down events are sent, never releases or repeats.
    KeyPress(KeyPress),
    /// A pointer (mouse) event. Accepted but currently unused.
    Mouse,
    /// A terminal resize. Accepted but currently unused.
    Resize(Size),
    /// An event that is not relevant; it is dropped by the producers and
    /// never handed to the application.
    Ignored,
}

/// How each raw input is classified: the event it becomes, or
/// [`Event::Ignored`] for input the application does not consume.
pub open spec fn classify(input: RawInput) -> Event {
    match input {
        RawInput::Key { kind, key } => if kind == KeyKind::Press {
            Event::KeyPress(key)
        } else {
            Event::Ignored
        },
        RawInput::Mouse => Event::Mouse,
        RawInput::Resize(w, h) => Event::Resize(Size { width: w, height: h }),
        RawInput::FocusGained => Event::Ignored,
        RawInput::FocusLost => Event::Ignored,
        RawInput::Paste => Event::Ignored,
    }
}

impl From<RawInput> for Event {
    /// Classify one raw terminal notification, exactly as [`classify`] says.
    fn from(input: RawInput) -> (r: Self) {
        match input {
            RawInput::Key { kind: KeyKind::Press, key } => Event::KeyPress(key),
            RawInput::Key { kind: _, key: _ } => Event::Ignored,
            RawInput::Mouse => Event::Mouse,
            RawInput::Resize(w, h) => Event::Resize(Size { width: w, height: h }),
            RawInput::FocusGained => Event::Ignored,
            RawInput::FocusLost => Event::Ignored,
            RawInput::Paste => Event::Ignored,
        }
    }
}

impl vstd::std_specs::convert::FromSpecImpl<RawInput> for Event {
    open spec fn obeys_from_spec() -> bool {
        true
    }

    open spec fn from_spec(input: RawInput) -> Event {
        classify(input)
    }
}

} // verus!
