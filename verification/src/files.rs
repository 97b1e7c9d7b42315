//! Saving: what is written to the file, and what the editor shows afterwards.

use vstd::prelude::*;
use vstd::string::*;
use crate::buffer::lines_of;
use crate::lines::{join_buffer, join_lines};
use crate::status::{show_message, shown};
use crate::style::{light_red, light_yellow, unbroken};
use crate::text::concat;
use crate::types::{Message, MessageType, Status};

verus! {

/// The status after an attempt to write the buffer to the file `real_name`: the
/// file's name where it went well, the reason where it failed.
pub open spec fn save_status(real_name: Seq<char>, written: Result<(), String>) -> Status {
    match written {
        Ok(_) => shown(unbroken(" Writed to "@ + real_name + " "@), MessageType::Info),
        Err(reason) => shown(
            unbroken(" Failed to write file: "@ + reason@ + " "@),
            MessageType::Error,
        ),
    }
}

/// Takes note of an attempt to write the text of `buffer` to the file
/// `real_name`.
///
/// `written` says how the attempt went, with the reason if it failed, and
/// `content` holds the text as it was last known to be in the file. After a
/// write that went well the buffer counts as saved and `content` is the buffer's
/// text; after one that failed both stay as they were. Either way the status line
/// says what happened.
pub fn save_file(
    real_name: &str,
    buffer: &Vec<String>,
    message: &mut Message,
    written: Result<(), String>,
    content: &mut String,
    saved: &mut bool,
)
    ensures
        final(message)@ == save_status(real_name@, written),
        *final(saved) == (*old(saved) || written is Ok),
        final(content)@ == if written is Ok {
            join_lines(lines_of(buffer@))
        } else {
            old(content)@
        },
{
    match written {
        Ok(_) => {
            let mut report = concat(" Writed to ", real_name);
            report.append(" ");
            show_message(message, light_yellow(report), MessageType::Info);
            *saved = true;
            *content = join_buffer(buffer);
        },
        Err(reason) => {
            let mut report = concat(" Failed to write file: ", reason.as_str());
            report.append(" ");
            show_message(message, light_red(report), MessageType::Error);
        },
    }
}

} // verus!
