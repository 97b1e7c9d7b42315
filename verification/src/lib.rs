//! The editing engine of a modal, keybinding-driven line editor for the terminal:
//! a line buffer with a cursor, the scroll window that follows the cursor, the
//! status line, the confirmation that guards unsaved changes, and the dispatcher
//! that turns key events into changes of all of these.
//!
//! Lines are sequences of characters and the cursor column counts characters.
//! Every executable function is verified against a contract over that model.

pub mod buffer;
pub mod confirm;
pub mod files;
pub mod handle_key_event;
pub mod keys;
pub mod laws;
pub mod lines;
pub mod scroll;
pub mod set_syntax_higlight;
pub mod status;
pub mod style;
pub mod text;
pub mod types;
pub mod view;
