//! What holds of the edits and moves on every well-formed document.

use vstd::prelude::*;
use crate::buffer::Document;
use crate::confirm::step_effect;
use crate::handle_key_event::{
    exit_prompt, has_unsaved_changes, key_effect, requested, Session,
};
use crate::keys::{Action, Command, KeyCode, KeyEvent};
use crate::scroll::{scrolled_offset, shown_row};
use crate::status::{expired, shown, ticked, MESSAGE_TICKS};
use crate::types::{MessageType, Status};

verus! {

/// Moving the cursor, in any of the four directions, leaves the text as it is and
/// the cursor on a line of the buffer, on or right behind one of its characters.
pub proof fn lemma_moves_keep_cursor_in_text(doc: Document)
    requires
        doc.wf(),
    ensures
        doc.move_left().wf() && doc.move_left().lines == doc.lines,
        doc.move_right().wf() && doc.move_right().lines == doc.lines,
        doc.move_up().wf() && doc.move_up().lines == doc.lines,
        doc.move_down().wf() && doc.move_down().lines == doc.lines,
        doc.move_left().row == doc.row && doc.move_right().row == doc.row,
{
}

/// Every edit leaves the document well-formed: the buffer keeps at least one
/// line, whatever is removed, and the cursor stays in the text.
pub proof fn lemma_edits_keep_document_wf(doc: Document, c: char)
    requires
        doc.wf(),
    ensures
        doc.insert_char(c).wf(),
        doc.split_line().wf(),
        doc.open_line_below().wf(),
        doc.backspace().wf() && doc.backspace().lines.len() >= 1,
        doc.delete().wf() && doc.delete().lines.len() >= 1,
{
}

/// Inserting a character and removing it again with a backspace gives back the
/// text and the cursor as they were.
pub proof fn lemma_insert_then_backspace(doc: Document, c: char)
    requires
        doc.wf(),
    ensures
        doc.insert_char(c).backspace() == doc,
{
    let typed = doc.insert_char(c);
    assert(typed.line().remove(typed.col - 1) =~= doc.line());
    assert(typed.backspace().lines =~= doc.lines);
}

/// Breaking a line and joining it again with a backspace gives back the text and
/// the cursor as they were.
pub proof fn lemma_split_then_backspace(doc: Document)
    requires
        doc.wf(),
    ensures
        doc.split_line().backspace() == doc,
{
    let broken = doc.split_line();
    assert(broken.lines[broken.row - 1] + broken.line() =~= doc.line());
    assert(broken.backspace().lines =~= doc.lines);
}

/// Opening a line below and removing it again gives back the text; the cursor
/// returns to the start of the line that it came from.
pub proof fn lemma_open_then_delete(doc: Document)
    requires
        doc.wf(),
    ensures
        doc.open_line_below().delete().lines == doc.lines,
        doc.open_line_below().delete().row == doc.row,
        doc.open_line_below().delete().col == 0,
{
    assert(doc.open_line_below().delete().lines =~= doc.lines);
}

/// Whether `command` only moves the cursor.
pub open spec fn is_move(command: Command) -> bool {
    command == Command::Left || command == Command::Right || command == Command::Up || command
        == Command::Down || command == Command::ArrowLeft || command == Command::ArrowRight
        || command == Command::ArrowUp || command == Command::ArrowDown
}

/// The saved flag follows the text. A command that changes the text clears the
/// flag; one that leaves the text as it is leaves the flag as it is, and moving
/// the cursor always does. Typing a character, breaking a line and opening a line
/// always change the text.
pub proof fn lemma_saved_flag_follows_text(
    before: Session,
    command: Command,
    content: Seq<char>,
    real_name: Seq<char>,
    screen_height: int,
)
    requires
        before.doc.wf(),
    ensures
        ({
            let after = key_effect(before, command, content, real_name, screen_height);
            &&& after.doc.lines != before.doc.lines ==> !after.saved
            &&& after.doc.lines == before.doc.lines ==> after.saved == before.saved
            &&& is_move(command) ==> after.doc.lines == before.doc.lines
            &&& (command is Insert || command == Command::LineBreak || command
                == Command::OpenLine) ==> after.doc.lines != before.doc.lines
        }),
{
    let after = key_effect(before, command, content, real_name, screen_height);
    if command is Insert {
        assert(after.doc.lines[before.doc.row].len() == before.doc.line().len() + 1);
    }
    if command == Command::LineBreak || command == Command::OpenLine {
        assert(after.doc.lines.len() == before.doc.lines.len() + 1);
    }
}

/// A key does one thing. Of these four, no two come from the same key: the
/// document changes, the confirmation changes, the editor is asked to end, the
/// caller is asked to write the file.
pub proof fn lemma_one_effect_per_key(
    before: Session,
    command: Command,
    content: Seq<char>,
    real_name: Seq<char>,
    screen_height: int,
)
    ensures
        ({
            let after = key_effect(before, command, content, real_name, screen_height);
            let edits = after.doc != before.doc;
            let asks = after.confirmation != before.confirmation;
            let ends = after.exit != before.exit;
            let writes = requested(command) == Action::Save;
            &&& !(edits && asks)
            &&& !(edits && ends)
            &&& !(edits && writes)
            &&& !(asks && ends)
            &&& !(asks && writes)
            &&& !(ends && writes)
        }),
{
}

/// Whether `part` stands somewhere in `text`, character for character.
pub open spec fn occurs_in(part: Seq<char>, text: Seq<char>) -> bool {
    exists|start: int|
        0 <= start && start + part.len() <= text.len() && #[trigger] text.subrange(
            start,
            start + part.len(),
        ) == part
}

/// While the confirmation is active, a key changes nothing of the session but the
/// confirmation and whether the editor is to end: the text, the cursor, the scroll
/// window, the status line and the saved flag stay as they are.
pub proof fn lemma_confirmation_takes_every_key(
    before: Session,
    key: KeyEvent,
    content: Seq<char>,
    real_name: Seq<char>,
    screen_height: int,
)
    requires
        before.confirmation.active,
    ensures
        ({
            let after = step_effect(before, key, content, real_name, screen_height);
            &&& after.doc == before.doc
            &&& after.scroll == before.scroll
            &&& after.status == before.status
            &&& after.saved == before.saved
            &&& after.confirmation.prompt == before.confirmation.prompt
        }),
{
}

/// Asking to leave with unsaved changes does not leave: it asks for confirmation,
/// with a question that holds the file's name, and changes nothing else. The
/// answer `n` then gives back the session as it was, but for the question.
pub proof fn lemma_cancelled_exit_changes_nothing(
    before: Session,
    content: Seq<char>,
    real_name: Seq<char>,
    screen_height: int,
)
    requires
        !before.confirmation.active,
        has_unsaved_changes(before.doc.lines, content, before.saved),
    ensures
        ({
            let quit = KeyEvent { code: KeyCode::Char('q'), control: true };
            let no = KeyEvent { code: KeyCode::Char('n'), control: false };
            let asked = step_effect(before, quit, content, real_name, screen_height);
            let back = step_effect(asked, no, content, real_name, screen_height);
            &&& asked.confirmation.active
            &&& asked.confirmation.prompt == exit_prompt(real_name)
            &&& occurs_in(real_name, exit_prompt(real_name))
            &&& asked.exit == before.exit
            &&& asked.doc == before.doc
            &&& back == Session { confirmation: back.confirmation, ..before }
            &&& !back.confirmation.active
        }),
{
    let start = "The file "@.len() as int;
    assert(exit_prompt(real_name).subrange(start, start + real_name.len()) =~= real_name);
}

/// The session after the keys of `keys`, one after the other.
pub open spec fn after_keys(
    before: Session,
    keys: Seq<KeyEvent>,
    content: Seq<char>,
    real_name: Seq<char>,
    screen_height: int,
) -> Session
    decreases keys.len(),
{
    if keys.len() == 0 {
        before
    } else {
        step_effect(
            after_keys(before, keys.drop_last(), content, real_name, screen_height),
            keys.last(),
            content,
            real_name,
            screen_height,
        )
    }
}

/// Whatever keys are pressed, and however many, the buffer keeps at least one
/// line and the cursor stays on a line of it, on or right behind one of that
/// line's characters.
pub proof fn lemma_keys_keep_document_wf(
    before: Session,
    keys: Seq<KeyEvent>,
    content: Seq<char>,
    real_name: Seq<char>,
    screen_height: int,
)
    requires
        before.doc.wf(),
    ensures
        after_keys(before, keys, content, real_name, screen_height).doc.wf(),
        after_keys(before, keys, content, real_name, screen_height).doc.lines.len() >= 1,
    decreases keys.len(),
{
    if keys.len() > 0 {
        lemma_keys_keep_document_wf(before, keys.drop_last(), content, real_name, screen_height);
    }
}

/// Whether a window of `screen_height` lines that starts at line `scroll_offset`
/// holds line `row`.
pub open spec fn window_holds(row: int, screen_height: int, scroll_offset: int) -> bool {
    scroll_offset <= row <= scroll_offset + screen_height - 1
}

/// After a recalculation the window holds the row at which the cursor is shown.
/// That row is the cursor's own row wherever the cursor was in the window, above
/// it, or on the line below it.
pub proof fn lemma_window_holds_shown_row(cursor_y: int, screen_height: int, scroll_offset: int)
    requires
        screen_height >= 1,
    ensures
        ({
            let offset = scrolled_offset(cursor_y, screen_height, scroll_offset);
            let row = shown_row(cursor_y, screen_height, offset);
            &&& window_holds(row, screen_height, offset)
            &&& cursor_y <= scroll_offset + screen_height ==> row == cursor_y
            &&& window_holds(cursor_y, screen_height, scroll_offset) ==> offset == scroll_offset
        }),
{
}

/// The first visible line after `times` recalculations for the same row.
pub open spec fn scrolled_times(
    cursor_y: int,
    screen_height: int,
    scroll_offset: int,
    times: nat,
) -> int
    decreases times,
{
    if times == 0 {
        scroll_offset
    } else {
        scrolled_offset(
            cursor_y,
            screen_height,
            scrolled_times(cursor_y, screen_height, scroll_offset, (times - 1) as nat),
        )
    }
}

/// A cursor below the window is reached one line at a time: after as many
/// recalculations as it lies lines below the window's last line, and after any
/// number more, the window holds it. A cursor above the window is reached by the
/// first.
pub proof fn lemma_repeated_scrolling_reaches_cursor(
    cursor_y: int,
    screen_height: int,
    scroll_offset: int,
    times: nat,
)
    requires
        screen_height >= 1,
        times >= 1,
        times >= cursor_y - (scroll_offset + screen_height - 1),
    ensures
        window_holds(
            cursor_y,
            screen_height,
            scrolled_times(cursor_y, screen_height, scroll_offset, times),
        ),
    decreases times,
{
    if cursor_y > scroll_offset + screen_height - 1 {
        lemma_scrolled_times_below(cursor_y, screen_height, scroll_offset, times);
    } else if times > 1 {
        lemma_repeated_scrolling_reaches_cursor(
            cursor_y,
            screen_height,
            scroll_offset,
            (times - 1) as nat,
        );
    } else {
        assert(scrolled_times(cursor_y, screen_height, scroll_offset, 0) == scroll_offset);
    }
}

/// While the cursor lies below the window, each recalculation moves the window
/// down by one line, and no further than to the cursor.
proof fn lemma_scrolled_times_below(
    cursor_y: int,
    screen_height: int,
    scroll_offset: int,
    times: nat,
)
    requires
        screen_height >= 1,
        cursor_y > scroll_offset + screen_height - 1,
    ensures
        ({
            let distance = cursor_y - (scroll_offset + screen_height - 1);
            scrolled_times(cursor_y, screen_height, scroll_offset, times) == if times <= distance {
                scroll_offset + times
            } else {
                scroll_offset + distance
            }
        }),
    decreases times,
{
    if times > 0 {
        lemma_scrolled_times_below(cursor_y, screen_height, scroll_offset, (times - 1) as nat);
    }
}

/// A window that holds the cursor still holds it after a key has moved the
/// cursor, in any of the four directions.
pub proof fn lemma_window_follows_moves(
    before: Session,
    command: Command,
    content: Seq<char>,
    real_name: Seq<char>,
    screen_height: int,
)
    requires
        before.doc.wf(),
        screen_height >= 1,
        window_holds(before.doc.row, screen_height, before.scroll),
        is_move(command),
    ensures
        ({
            let after = key_effect(before, command, content, real_name, screen_height);
            window_holds(after.doc.row, screen_height, after.scroll)
        }),
{
}

/// The status after `ticks` ticks, each counted and then checked for expiry.
pub open spec fn after_ticks(status: Status, ticks: nat) -> Status
    decreases ticks,
{
    if ticks == 0 {
        status
    } else {
        expired(ticked(after_ticks(status, (ticks - 1) as nat)))
    }
}

/// A message is on display for `MESSAGE_TICKS` ticks. Until then it stands as it
/// was put up, with the ticks counted; the check after that tick clears it.
pub proof fn lemma_message_is_shown_for_its_ticks(text: Seq<char>, kind: MessageType, ticks: nat)
    requires
        ticks <= MESSAGE_TICKS,
    ensures
        ticks < MESSAGE_TICKS ==> after_ticks(shown(text, kind), ticks) == (Status {
            count: ticks,
            ..shown(text, kind)
        }),
        ticks == MESSAGE_TICKS ==> after_ticks(shown(text, kind), ticks) == (Status {
            text: Seq::empty(),
            count: ticks,
            displayed: false,
            kind: MessageType::Empty,
        }),
    decreases ticks,
{
    if ticks > 0 {
        lemma_message_is_shown_for_its_ticks(text, kind, (ticks - 1) as nat);
    }
}

} // verus!
