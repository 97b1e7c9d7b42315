//! Key events, and the commands that they stand for while editing.

use vstd::prelude::*;

verus! {

/// The key that was pressed.
#[derive(Debug, Clone, Copy, PartialEq, Eq, Structural)]
pub enum KeyCode {
    Char(char),
    Enter,
    Backspace,
    Left,
    Right,
    Up,
    Down,
    Other,
}

/// A key together with whether the control key was held down with it.
#[derive(Debug, Clone, Copy, PartialEq, Eq, Structural)]
pub struct KeyEvent {
    pub code: KeyCode,
    pub control: bool,
}

/// What a key asks for while editing.
#[derive(Debug, Clone, Copy, PartialEq, Eq, Structural)]
pub enum Command {
    /// Insert the character at the cursor.
    Insert(char),
    /// Break the line at the cursor.
    LineBreak,
    /// Remove what stands before the cursor.
    Backspace,
    /// Remove an empty line, or the character at the cursor.
    Delete,
    /// Open a line below the cursor.
    OpenLine,
    /// Move the cursor one column to the left.
    Left,
    /// Move the cursor one column to the right.
    Right,
    /// Move the cursor one line up, and let the window follow.
    Up,
    /// Move the cursor one line down, and let the window follow.
    Down,
    /// The arrow keys: move as the control keys do, and warn that they are
    /// deprecated.
    ArrowLeft,
    ArrowRight,
    ArrowUp,
    ArrowDown,
    /// Write the buffer to its file.
    Save,
    /// Leave the editor.
    Quit,
    /// A control key that is no command.
    Unknown(char),
    /// Nothing.
    Ignore,
}

/// What is asked of the caller after a key has been handled.
#[derive(Debug, Clone, Copy, PartialEq, Eq, Structural)]
pub enum Action {
    /// Nothing: go on with the next key.
    Continue,
    /// Write the buffer to its file and report how that went.
    Save,
    /// Write the buffer to its file and leave, whether or not that went well.
    SaveAndExit,
}

/// The command that `key` stands for while editing.
pub open spec fn key_command(key: KeyEvent) -> Command {
    match key.code {
        KeyCode::Char(c) => if key.control {
            if c == 'q' {
                Command::Quit
            } else if c == 'b' {
                Command::Left
            } else if c == 'f' {
                Command::Right
            } else if c == 'n' {
                Command::Down
            } else if c == 'p' {
                Command::Up
            } else if c == 'o' {
                Command::OpenLine
            } else if c == 'd' {
                Command::Delete
            } else if c == 's' {
                Command::Save
            } else {
                Command::Unknown(c)
            }
        } else {
            Command::Insert(c)
        },
        KeyCode::Enter => Command::LineBreak,
        KeyCode::Backspace => Command::Backspace,
        KeyCode::Left => Command::ArrowLeft,
        KeyCode::Right => Command::ArrowRight,
        KeyCode::Up => Command::ArrowUp,
        KeyCode::Down => Command::ArrowDown,
        KeyCode::Other => Command::Ignore,
    }
}

/// The command that a key stands for while editing.
pub fn command_of(key: KeyEvent) -> (command: Command)
    ensures
        command == key_command(key),
{
    match key.code {
        KeyCode::Char(c) => {
            if !key.control {
                Command::Insert(c)
            } else if c == 'q' {
                Command::Quit
            } else if c == 'b' {
                Command::Left
            } else if c == 'f' {
                Command::Right
            } else if c == 'n' {
                Command::Down
            } else if c == 'p' {
                Command::Up
            } else if c == 'o' {
                Command::OpenLine
            } else if c == 'd' {
                Command::Delete
            } else if c == 's' {
                Command::Save
            } else {
                Command::Unknown(c)
            }
        },
        KeyCode::Enter => Command::LineBreak,
        KeyCode::Backspace => Command::Backspace,
        KeyCode::Left => Command::ArrowLeft,
        KeyCode::Right => Command::ArrowRight,
        KeyCode::Up => Command::ArrowUp,
        KeyCode::Down => Command::ArrowDown,
        KeyCode::Other => Command::Ignore,
    }
}

} // verus!
