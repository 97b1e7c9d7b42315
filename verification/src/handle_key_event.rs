//! The key dispatcher: what each key does to an editing session.

use vstd::prelude::*;
use vstd::string::*;
use crate::buffer::{
    document, handle_backspace, handle_delete, insert_char, insert_line_break, move_down,
    move_left, move_right, move_up, open_line_below, Document,
};
use crate::keys::{command_of, key_command, Action, Command, KeyEvent};
use crate::lines::{join_buffer, join_lines};
use crate::scroll::{scrolled_offset, update_scroll};
use crate::status::{show_message, shown};
use crate::style::{lemma_unbroken_one_line, lemma_unbroken_twice, light_red, unbroken, yellow};
use crate::text::{char_count, concat, push_char};
use crate::types::{Confirmation, Cursor, Message, MessageType, Status, YOrNState};

verus! {

/// An editing session as a plain value: the document, the first visible line,
/// the status line, the confirmation, whether the buffer is saved, and whether
/// the editor has been asked to end.
pub struct Session {
    pub doc: Document,
    pub scroll: int,
    pub status: Status,
    pub confirmation: Confirmation,
    pub saved: bool,
    pub exit: bool,
}

/// The session that the parts of an editor's state stand for.
pub open spec fn session(
    buffer: Seq<String>,
    cursor: Cursor,
    message: Message,
    y_or_n_state: YOrNState,
    scroll_offset: usize,
    saved: bool,
    should_exit: bool,
) -> Session {
    Session {
        doc: document(buffer, cursor),
        scroll: scroll_offset as int,
        status: message@,
        confirmation: y_or_n_state@,
        saved,
        exit: should_exit,
    }
}

/// The number of lines that a terminal of `height` rows shows: two rows go to
/// the frame, and there is always room for one line.
pub open spec fn viewport(height: u16) -> int {
    if height > 2 {
        height - 2
    } else {
        1
    }
}

/// The document after `command`.
pub open spec fn edited(doc: Document, command: Command) -> Document {
    match command {
        Command::Insert(c) => doc.insert_char(c),
        Command::LineBreak => doc.split_line(),
        Command::Backspace => doc.backspace(),
        Command::Delete => doc.delete(),
        Command::OpenLine => doc.open_line_below(),
        Command::Left | Command::ArrowLeft => doc.move_left(),
        Command::Right | Command::ArrowRight => doc.move_right(),
        Command::Up | Command::ArrowUp => doc.move_up(),
        Command::Down | Command::ArrowDown => doc.move_down(),
        Command::Save | Command::Quit | Command::Unknown(_) | Command::Ignore => doc,
    }
}

/// Whether `command` moves the cursor up or down.
pub open spec fn is_vertical(command: Command) -> bool {
    command == Command::Up || command == Command::Down || command == Command::ArrowUp || command
        == Command::ArrowDown
}

/// The first visible line after `command` has left the cursor on line `row`: a
/// move up or down is followed by one recalculation of the scroll window, and
/// nothing else touches the window.
pub open spec fn scrolled(scroll: int, command: Command, row: int, screen_height: int) -> int {
    if is_vertical(command) {
        scrolled_offset(row, screen_height, scroll)
    } else {
        scroll
    }
}

/// The status after `command`: a control key that is no command and the arrow
/// keys leave a message; every other key leaves the status as it is.
pub open spec fn status_after(status: Status, command: Command) -> Status {
    match command {
        Command::Unknown(c) => shown(
            unbroken(" C-"@.push(c) + ": Not a Command "@),
            MessageType::Error,
        ),
        Command::ArrowLeft => shown(
            " Arrow keys are deprecated, use C-b "@,
            MessageType::Error,
        ),
        Command::ArrowRight => shown(
            " Arrow keys are deprecated, use C-f "@,
            MessageType::Error,
        ),
        Command::ArrowUp => shown(
            " Arrow keys are deprecated, use C-p "@,
            MessageType::Error,
        ),
        Command::ArrowDown => shown(
            " Arrow keys are deprecated, use C-n "@,
            MessageType::Error,
        ),
        _ => status,
    }
}

/// Whether leaving now would lose changes: the buffer's text is not `content`,
/// the text as it was last known to be in the file, and the buffer is not saved.
pub open spec fn has_unsaved_changes(lines: Seq<Seq<char>>, content: Seq<char>, saved: bool) -> bool {
    content != join_lines(lines) && !saved
}

/// The question that is asked before leaving with unsaved changes.
pub open spec fn exit_prompt(real_name: Seq<char>) -> Seq<char> {
    "The file "@ + real_name + " is not saved! Do you really want to exit?"@
}

/// The session after `command`, for a file `real_name` whose text was last known
/// to be `content`, on a screen that shows `screen_height` lines.
pub open spec fn key_effect(
    before: Session,
    command: Command,
    content: Seq<char>,
    real_name: Seq<char>,
    screen_height: int,
) -> Session {
    let doc = edited(before.doc, command);
    let unsaved = has_unsaved_changes(before.doc.lines, content, before.saved);
    Session {
        doc,
        scroll: scrolled(before.scroll, command, doc.row, screen_height),
        status: status_after(before.status, command),
        confirmation: if command == Command::Quit && unsaved {
            Confirmation { active: true, prompt: exit_prompt(real_name) }
        } else {
            before.confirmation
        },
        saved: before.saved && doc.lines == before.doc.lines,
        exit: before.exit || (command == Command::Quit && !unsaved),
    }
}

/// What `command` asks of the caller.
pub open spec fn requested(command: Command) -> Action {
    if command == Command::Save {
        Action::Save
    } else {
        Action::Continue
    }
}

/// The number of lines that a terminal of `height` rows shows.
pub fn viewport_height(height: u16) -> (screen_height: usize)
    ensures
        screen_height == viewport(height),
{
    if height > 2 {
        (height - 2) as usize
    } else {
        1
    }
}

/// Recalculates the scroll window for the cursor once. The cursor stays where it
/// is: only the row at which it would be shown is pulled into the window.
fn follow_cursor(cursor: &Cursor, screen_height: usize, scroll_offset: &mut usize)
    requires
        screen_height >= 1,
    ensures
        *final(scroll_offset) == scrolled_offset(
            cursor.y as int,
            screen_height as int,
            *old(scroll_offset) as int,
        ),
{
    let mut row: usize = cursor.y;
    update_scroll(&mut row, screen_height, scroll_offset);
}

/// Puts a warning about a deprecated key on the status line: `text` without its
/// line endings, as an error.
pub fn display_deprecated_message(text: &str, message: &mut Message)
    ensures
        final(message)@ == shown(unbroken(text@), MessageType::Error),
{
    let coloured = yellow(light_red(String::from_str(text)));
    proof {
        lemma_unbroken_twice(text@);
    }
    show_message(message, coloured, MessageType::Error);
}

/// Handles one key while editing.
///
/// `content` is the text as it was last known to be in the file `real_name`,
/// and `height` the number of rows of the terminal. The key stands for a
/// command, and the session changes as `key_effect` says of that command. The
/// result is what is left for the caller to do: to write the file, after the
/// save key, and then to call `save_file` with the outcome.
pub fn handle_key_event(
    content: String,
    key: KeyEvent,
    buffer: &mut Vec<String>,
    cursor: &mut Cursor,
    message: &mut Message,
    y_or_n_state: &mut YOrNState,
    real_name: &str,
    scroll_offset: &mut usize,
    saved: &mut bool,
    should_exit: &mut bool,
    height: u16,
) -> (action: Action)
    requires
        document(old(buffer)@, *old(cursor)).wf(),
    ensures
        session(
            final(buffer)@,
            *final(cursor),
            *final(message),
            *final(y_or_n_state),
            *final(scroll_offset),
            *final(saved),
            *final(should_exit),
        ) == key_effect(
            session(
                old(buffer)@,
                *old(cursor),
                *old(message),
                *old(y_or_n_state),
                *old(scroll_offset),
                *old(saved),
                *old(should_exit),
            ),
            key_command(key),
            content@,
            real_name@,
            viewport(height),
        ),
        document(final(buffer)@, *final(cursor)).wf(),
        action == requested(key_command(key)),
{
    let screen_height = viewport_height(height);
    let command = command_of(key);
    let ghost before = document(buffer@, *cursor);
    match command {
        Command::Insert(c) => {
            insert_char(buffer, cursor, c);
            *saved = false;
        },
        Command::LineBreak => {
            insert_line_break(buffer, cursor);
            *saved = false;
        },
        Command::OpenLine => {
            open_line_below(buffer, cursor);
            *saved = false;
        },
        Command::Backspace => {
            if cursor.x > 0 || cursor.y > 0 {
                *saved = false;
            }
            handle_backspace(buffer, cursor);
        },
        Command::Delete => {
            let count: usize = char_count(buffer[cursor.y].as_str());
            if cursor.x < count || (count == 0 && buffer.len() > 1) {
                *saved = false;
            }
            handle_delete(buffer, cursor);
        },
        Command::Left => {
            move_left(buffer, cursor);
        },
        Command::Right => {
            move_right(buffer, cursor);
        },
        Command::Up => {
            move_up(buffer, cursor);
            follow_cursor(cursor, screen_height, scroll_offset);
        },
        Command::Down => {
            move_down(buffer, cursor);
            follow_cursor(cursor, screen_height, scroll_offset);
        },
        Command::ArrowLeft => {
            display_deprecated_message(" Arrow keys are deprecated, use C-b ", message);
            proof {
                reveal_strlit(" Arrow keys are deprecated, use C-b ");
                lemma_unbroken_one_line(" Arrow keys are deprecated, use C-b "@);
            }
            move_left(buffer, cursor);
        },
        Command::ArrowRight => {
            display_deprecated_message(" Arrow keys are deprecated, use C-f ", message);
            proof {
                reveal_strlit(" Arrow keys are deprecated, use C-f ");
                lemma_unbroken_one_line(" Arrow keys are deprecated, use C-f "@);
            }
            move_right(buffer, cursor);
        },
        Command::ArrowUp => {
            display_deprecated_message(" Arrow keys are deprecated, use C-p ", message);
            proof {
                reveal_strlit(" Arrow keys are deprecated, use C-p ");
                lemma_unbroken_one_line(" Arrow keys are deprecated, use C-p "@);
            }
            move_up(buffer, cursor);
            follow_cursor(cursor, screen_height, scroll_offset);
        },
        Command::ArrowDown => {
            display_deprecated_message(" Arrow keys are deprecated, use C-n ", message);
            proof {
                reveal_strlit(" Arrow keys are deprecated, use C-n ");
                lemma_unbroken_one_line(" Arrow keys are deprecated, use C-n "@);
            }
            move_down(buffer, cursor);
            follow_cursor(cursor, screen_height, scroll_offset);
        },
        Command::Save => {},
        Command::Quit => {
            let text = join_buffer(buffer);
            if !(content == text) && !*saved {
                y_or_n_state.is_active = true;
                let mut prompt = concat("The file ", real_name);
                prompt.append(" is not saved! Do you really want to exit?");
                y_or_n_state.prompt = prompt;
            } else {
                *should_exit = true;
            }
        },
        Command::Unknown(c) => {
            let mut text = String::from_str(" C-");
            push_char(&mut text, c);
            text.append(": Not a Command ");
            show_message(message, light_red(text), MessageType::Error);
        },
        Command::Ignore => {},
    }
    match command {
        Command::Save => Action::Save,
        _ => Action::Continue,
    }
}

} // verus!
