//! The plain data of an editing session.

use vstd::prelude::*;

verus! {

/// Severity of the status message; `Empty` is that of no message at all.
#[derive(Debug, Clone, Copy, PartialEq, Eq, PartialOrd, Ord, Structural)]
pub enum MessageType {
    Info,
    Error,
    Empty,
}

impl Default for MessageType {
    fn default() -> (kind: Self)
        ensures
            kind == MessageType::Empty,
    {
        MessageType::Empty
    }
}

/// The insertion point: `x` is the column, counted in characters, `y` the row.
#[derive(Debug, Clone, Copy, PartialEq, Eq, Structural)]
pub struct Cursor {
    pub x: usize,
    pub y: usize,
}

impl Default for Cursor {
    fn default() -> (cursor: Self)
        ensures
            cursor.x == 0,
            cursor.y == 0,
    {
        Cursor { x: 0, y: 0 }
    }
}

/// The status message: its text, the number of ticks it has been counted for,
/// whether it is on display, and its severity.
#[derive(Debug)]
pub struct Message {
    pub text: String,
    pub count: usize,
    pub displayed: bool,
    pub message_type: MessageType,
}

/// A status message as a plain value.
pub struct Status {
    pub text: Seq<char>,
    pub count: nat,
    pub displayed: bool,
    pub kind: MessageType,
}

impl View for Message {
    type V = Status;

    open spec fn view(&self) -> Status {
        Status {
            text: self.text@,
            count: self.count as nat,
            displayed: self.displayed,
            kind: self.message_type,
        }
    }
}

impl Default for Message {
    fn default() -> (message: Self)
        ensures
            message@ == (Status {
                text: Seq::empty(),
                count: 0,
                displayed: false,
                kind: MessageType::Empty,
            }),
    {
        Message { text: String::new(), count: 0, displayed: false, message_type: MessageType::Empty }
    }
}

/// The confirmation that is asked before leaving with unsaved changes.
#[derive(Debug)]
pub struct YOrNState {
    pub is_active: bool,
    pub prompt: String,
}

/// A confirmation as a plain value.
pub struct Confirmation {
    pub active: bool,
    pub prompt: Seq<char>,
}

impl View for YOrNState {
    type V = Confirmation;

    open spec fn view(&self) -> Confirmation {
        Confirmation { active: self.is_active, prompt: self.prompt@ }
    }
}

impl Default for YOrNState {
    fn default() -> (state: Self)
        ensures
            state@ == (Confirmation { active: false, prompt: Seq::empty() }),
    {
        YOrNState { is_active: false, prompt: String::new() }
    }
}

} // verus!
