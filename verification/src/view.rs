//! What is to be drawn: the part of a session that the screen shows.

use vstd::prelude::*;
use vstd::string::*;
use crate::buffer::{document, lines_of, Document};
use crate::handle_key_event::{viewport, viewport_height};
use crate::lines::{join_buffer, join_lines};
use crate::scroll::{scrolled_offset, shown_row, update_scroll};
use crate::text::concat;
use crate::status::{advance_tick, ticked};
use crate::types::{Confirmation, Cursor, Message, MessageType, Status, YOrNState};

verus! {

/// One picture of the editor, ready to be drawn.
#[derive(Debug)]
pub struct Frame {
    /// The title: the file's name between two spaces.
    pub title: String,
    /// The visible lines, with a line feed between each two.
    pub body: String,
    /// The first visible line.
    pub offset: usize,
    /// The line on which the cursor is shown, counted from the first line of the
    /// buffer, and the cursor's column. Both count from zero.
    pub row: usize,
    pub column: usize,
    /// The status line. `status_kind` is `Empty` where none is to be shown.
    pub status: String,
    pub status_kind: MessageType,
    /// The question of the confirmation, while that is active.
    pub prompt: Option<String>,
}

/// A frame as a plain value.
pub struct Picture {
    pub title: Seq<char>,
    pub body: Seq<char>,
    pub offset: int,
    pub row: int,
    pub column: int,
    pub status: Seq<char>,
    pub status_kind: MessageType,
    pub prompt: Option<Seq<char>>,
}

impl View for Frame {
    type V = Picture;

    open spec fn view(&self) -> Picture {
        Picture {
            title: self.title@,
            body: self.body@,
            offset: self.offset as int,
            row: self.row as int,
            column: self.column as int,
            status: self.status@,
            status_kind: self.status_kind,
            prompt: match self.prompt {
                Some(prompt) => Some(prompt@),
                None => None,
            },
        }
    }
}

/// The lines of `lines` that a window of `screen_height` lines shows when it
/// starts at line `offset`.
pub open spec fn visible(lines: Seq<Seq<char>>, offset: int, screen_height: int) -> Seq<Seq<char>> {
    let first = if offset < lines.len() { offset } else { lines.len() as int };
    let end = if first + screen_height < lines.len() { first + screen_height } else { lines.len() as int };
    lines.subrange(first, end)
}

/// The severity with which a status is drawn: none where there is no text.
pub open spec fn drawn_kind(text: Seq<char>, kind: MessageType) -> MessageType {
    if text.len() == 0 {
        MessageType::Empty
    } else {
        kind
    }
}

/// The picture of a session on a screen that shows `screen_height` lines, when
/// the first visible line was `scroll` before. The scroll window is recalculated
/// once for the picture, and the cursor is shown inside the window that results.
pub open spec fn picture(
    doc: Document,
    status: Status,
    confirmation: Confirmation,
    file_name: Seq<char>,
    scroll: int,
    screen_height: int,
) -> Picture {
    let offset = scrolled_offset(doc.row, screen_height, scroll);
    Picture {
        title: " "@ + file_name + " "@,
        body: join_lines(visible(doc.lines, offset, screen_height)),
        offset,
        row: shown_row(doc.row, screen_height, offset),
        column: doc.col,
        status: status.text,
        status_kind: drawn_kind(status.text, status.kind),
        prompt: if confirmation.active {
            Some(confirmation.prompt)
        } else {
            None
        },
    }
}

/// Composes the picture of a session on a terminal of `height` rows. Nothing of
/// the session changes.
pub fn compose_frame(
    buffer: &Vec<String>,
    cursor: &Cursor,
    message: &Message,
    y_or_n_state: &YOrNState,
    file_name: &str,
    scroll_offset: usize,
    height: u16,
) -> (frame: Frame)
    requires
        document(buffer@, *cursor).wf(),
    ensures
        frame@ == picture(
            document(buffer@, *cursor),
            message@,
            y_or_n_state@,
            file_name@,
            scroll_offset as int,
            viewport(height),
        ),
        frame.offset <= frame.row <= frame.offset + viewport(height) - 1,
        frame.row < buffer@.len(),
{
    let screen_height: usize = viewport_height(height);
    let mut row: usize = cursor.y;
    let mut offset: usize = scroll_offset;
    update_scroll(&mut row, screen_height, &mut offset);

    let end: usize = if screen_height < buffer.len() - offset {
        offset + screen_height
    } else {
        buffer.len()
    };
    let mut shown: Vec<String> = Vec::new();
    let mut i: usize = offset;
    while i < end
        invariant
            offset <= i <= end <= buffer@.len(),
            lines_of(shown@) == lines_of(buffer@).subrange(offset as int, i as int),
        decreases end - i,
    {
        let ghost earlier = lines_of(shown@);
        shown.push(buffer[i].clone());
        i = i + 1;
        assert(lines_of(shown@) =~= earlier.push(buffer@[i - 1]@));
        assert(lines_of(shown@) =~= lines_of(buffer@).subrange(offset as int, i as int));
    }
    let body = join_buffer(&shown);

    let mut title = concat(" ", file_name);
    title.append(" ");
    let status_kind = if message.text.as_str().is_empty() {
        MessageType::Empty
    } else {
        message.message_type
    };
    let prompt = if y_or_n_state.is_active {
        Some(y_or_n_state.prompt.clone())
    } else {
        None
    };
    Frame {
        title,
        body,
        offset,
        row,
        column: cursor.x,
        status: message.text.clone(),
        status_kind,
        prompt,
    }
}

/// Begins one tick of the session on a terminal of `height` rows: the tick is
/// counted for the status message, the picture of the session is composed, and the
/// scroll window stays where the picture put it, so that a window which has lost
/// the cursor comes nearer to it with every tick.
pub fn draw_tick(
    buffer: &Vec<String>,
    cursor: &Cursor,
    message: &mut Message,
    y_or_n_state: &YOrNState,
    file_name: &str,
    scroll_offset: &mut usize,
    height: u16,
) -> (frame: Frame)
    requires
        document(buffer@, *cursor).wf(),
    ensures
        final(message)@ == ticked(old(message)@),
        frame@ == picture(
            document(buffer@, *cursor),
            final(message)@,
            y_or_n_state@,
            file_name@,
            *old(scroll_offset) as int,
            viewport(height),
        ),
        *final(scroll_offset) == frame.offset,
        frame.offset <= frame.row <= frame.offset + viewport(height) - 1,
        frame.row < buffer@.len(),
{
    advance_tick(message);
    let frame = compose_frame(
        buffer,
        cursor,
        message,
        y_or_n_state,
        file_name,
        *scroll_offset,
        height,
    );
    *scroll_offset = frame.offset;
    frame
}

} // verus!
