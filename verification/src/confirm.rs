//! The confirmation that guards unsaved changes, and the rule that every key goes
//! to it while it is active.

use vstd::prelude::*;
use crate::buffer::document;
use crate::handle_key_event::{handle_key_event, key_effect, requested, session, viewport, Session};
use crate::keys::{key_command, Action, KeyCode, KeyEvent};
use crate::types::{Confirmation, Cursor, Message, YOrNState};

verus! {

/// What a key answers to the question whether to leave with unsaved changes.
#[derive(Debug, Clone, Copy, PartialEq, Eq, Structural)]
pub enum Answer {
    /// Leave without saving.
    Quit,
    /// Save, then leave.
    Save,
    /// Stay and go on editing.
    Cancel,
    /// No answer: the question stands.
    Unclear,
}

/// The answer that `key` gives: `q`, `s` and `n`, in either case; whether the
/// control key is held makes no difference.
pub open spec fn key_answer(key: KeyEvent) -> Answer {
    match key.code {
        KeyCode::Char(c) => if c == 'q' || c == 'Q' {
            Answer::Quit
        } else if c == 's' || c == 'S' {
            Answer::Save
        } else if c == 'n' || c == 'N' {
            Answer::Cancel
        } else {
            Answer::Unclear
        },
        _ => Answer::Unclear,
    }
}

/// The confirmation after `answer`: leaving without saving and staying both end
/// it; its question is kept.
pub open spec fn answered(before: Confirmation, answer: Answer) -> Confirmation {
    Confirmation {
        active: before.active && answer != Answer::Quit && answer != Answer::Cancel,
        ..before
    }
}

/// Whether the editor is to end after `answer`.
pub open spec fn ends(answer: Answer) -> bool {
    answer == Answer::Quit || answer == Answer::Save
}

/// What `answer` asks of the caller.
pub open spec fn answer_request(answer: Answer) -> Action {
    if answer == Answer::Save {
        Action::SaveAndExit
    } else {
        Action::Continue
    }
}

/// The session after `answer`: nothing changes but the confirmation and whether
/// the editor is to end.
pub open spec fn answer_effect(before: Session, answer: Answer) -> Session {
    Session {
        confirmation: answered(before.confirmation, answer),
        exit: before.exit || ends(answer),
        ..before
    }
}

/// The session after `key`. While the confirmation is active the key is an
/// answer to it and nothing else; otherwise it is a command for the editor.
pub open spec fn step_effect(
    before: Session,
    key: KeyEvent,
    content: Seq<char>,
    real_name: Seq<char>,
    screen_height: int,
) -> Session {
    if before.confirmation.active {
        answer_effect(before, key_answer(key))
    } else {
        key_effect(before, key_command(key), content, real_name, screen_height)
    }
}

/// What is left for the caller to do after `key`.
pub open spec fn step_request(active: bool, key: KeyEvent) -> Action {
    if active {
        answer_request(key_answer(key))
    } else {
        requested(key_command(key))
    }
}

/// The answer that a key gives.
pub fn answer_of(key: KeyEvent) -> (answer: Answer)
    ensures
        answer == key_answer(key),
{
    match key.code {
        KeyCode::Char(c) => {
            if c == 'q' || c == 'Q' {
                Answer::Quit
            } else if c == 's' || c == 'S' {
                Answer::Save
            } else if c == 'n' || c == 'N' {
                Answer::Cancel
            } else {
                Answer::Unclear
            }
        },
        _ => Answer::Unclear,
    }
}

/// Handles one key while the confirmation is asked.
///
/// The result is what is left for the caller to do: to write the file before
/// the editor ends, after the answer to save.
pub fn handle_y_or_n_event(
    should_exit: &mut bool,
    y_or_n_state: &mut YOrNState,
    key: KeyEvent,
) -> (action: Action)
    ensures
        final(y_or_n_state)@ == answered(old(y_or_n_state)@, key_answer(key)),
        *final(should_exit) == (*old(should_exit) || ends(key_answer(key))),
        action == answer_request(key_answer(key)),
{
    match answer_of(key) {
        Answer::Quit => {
            *should_exit = true;
            y_or_n_state.is_active = false;
            Action::Continue
        },
        Answer::Save => {
            *should_exit = true;
            Action::SaveAndExit
        },
        Answer::Cancel => {
            y_or_n_state.is_active = false;
            Action::Continue
        },
        Answer::Unclear => Action::Continue,
    }
}

/// Handles one key, whatever the editor is doing.
///
/// While the confirmation is active the key goes to it and to nothing else;
/// otherwise it goes to the key dispatcher.
pub fn step(
    content: String,
    key: KeyEvent,
    buffer: &mut Vec<String>,
    cursor: &mut Cursor,
    message: &mut Message,
    y_or_n_state: &mut YOrNState,
    real_name: &str,
    scroll_offset: &mut usize,
    saved: &mut bool,
    should_exit: &mut bool,
    height: u16,
) -> (action: Action)
    requires
        document(old(buffer)@, *old(cursor)).wf(),
    ensures
        session(
            final(buffer)@,
            *final(cursor),
            *final(message),
            *final(y_or_n_state),
            *final(scroll_offset),
            *final(saved),
            *final(should_exit),
        ) == step_effect(
            session(
                old(buffer)@,
                *old(cursor),
                *old(message),
                *old(y_or_n_state),
                *old(scroll_offset),
                *old(saved),
                *old(should_exit),
            ),
            key,
            content@,
            real_name@,
            viewport(height),
        ),
        document(final(buffer)@, *final(cursor)).wf(),
        action == step_request(old(y_or_n_state).is_active, key),
{
    if y_or_n_state.is_active {
        handle_y_or_n_event(should_exit, y_or_n_state, key)
    } else {
        handle_key_event(
            content,
            key,
            buffer,
            cursor,
            message,
            y_or_n_state,
            real_name,
            scroll_offset,
            saved,
            should_exit,
            height,
        )
    }
}

} // verus!
