//! The status line: a message that is shown for a number of ticks and then goes.

use vstd::prelude::*;
use crate::types::{Message, MessageType, Status};

verus! {

/// The number of ticks after which a message that is on display is cleared.
pub const MESSAGE_TICKS: usize = 120;

/// The status that shows `text` with severity `kind`, counted from zero.
pub open spec fn shown(text: Seq<char>, kind: MessageType) -> Status {
    Status { text, count: 0, displayed: true, kind }
}

/// The status one tick later: its counter is one higher, but stays at the
/// largest number that it can hold.
pub open spec fn ticked(status: Status) -> Status {
    Status {
        count: if status.count < usize::MAX { status.count + 1 } else { status.count },
        ..status
    }
}

/// The status after the check for expiry. A message on display that has been
/// counted for `MESSAGE_TICKS` ticks is cleared: its text goes, it is no longer
/// on display and has no severity. While none is on display the counter is held
/// at zero, so that the next message is counted from its first tick.
pub open spec fn expired(status: Status) -> Status {
    if status.count >= MESSAGE_TICKS && status.displayed {
        Status { text: Seq::empty(), displayed: false, kind: MessageType::Empty, ..status }
    } else if !status.displayed {
        Status { count: 0, ..status }
    } else {
        status
    }
}

/// Puts `text` on display with severity `message_type`.
pub fn show_message(message: &mut Message, text: String, message_type: MessageType)
    ensures
        final(message)@ == shown(text@, message_type),
{
    message.text = text;
    message.message_type = message_type;
    message.displayed = true;
    message.count = 0;
}

/// Counts one more tick for the message.
pub fn advance_tick(message: &mut Message)
    ensures
        final(message)@ == ticked(old(message)@),
{
    if message.count < usize::MAX {
        message.count = message.count + 1;
    }
}

/// Clears the message once it has been on display long enough.
pub fn clear_message_after_timeout(message: &mut Message)
    ensures
        final(message)@ == expired(old(message)@),
{
    if message.count >= MESSAGE_TICKS && message.displayed {
        message.text = String::new();
        message.displayed = false;
        message.message_type = MessageType::Empty;
    } else if !message.displayed {
        message.count = 0;
    }
}

} // verus!
