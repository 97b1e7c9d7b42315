//! The line buffer and its cursor: the model, and the edits and moves on it.

use vstd::prelude::*;
use crate::text::{char_count, concat, head_of, insert_char_at, remove_char_at, tail_of};
use crate::types::Cursor;

verus! {

/// What is being edited: the lines, each a sequence of characters, and the
/// position of the cursor in them.
pub struct Document {
    pub lines: Seq<Seq<char>>,
    pub row: int,
    pub col: int,
}

impl Document {
    /// The cursor is on a line of the buffer, and on or right behind one of that
    /// line's characters. A well-formed document has at least one line.
    pub open spec fn wf(self) -> bool {
        &&& 0 <= self.row < self.lines.len()
        &&& 0 <= self.col <= self.lines[self.row].len()
    }

    /// The line that the cursor is on.
    pub open spec fn line(self) -> Seq<char> {
        self.lines[self.row]
    }

    /// `c` goes in front of the cursor's column, and the cursor behind `c`.
    pub open spec fn insert_char(self, c: char) -> Document {
        Document {
            lines: self.lines.update(self.row, self.line().insert(self.col, c)),
            row: self.row,
            col: self.col + 1,
        }
    }

    /// The cursor's line is cut at the cursor: what stands before it stays, the
    /// rest becomes the next line, and the cursor goes to the start of that line.
    pub open spec fn split_line(self) -> Document {
        Document {
            lines: self.lines.update(self.row, self.line().take(self.col)).insert(
                self.row + 1,
                self.line().skip(self.col),
            ),
            row: self.row + 1,
            col: 0,
        }
    }

    /// An empty line appears below the cursor's line, and the cursor goes to it.
    pub open spec fn open_line_below(self) -> Document {
        Document { lines: self.lines.insert(self.row + 1, Seq::empty()), row: self.row + 1, col: 0 }
    }

    /// Inside a line the character before the cursor goes. At the start of a line
    /// but the first, the line is joined to the one above, and the cursor stands
    /// where the two meet. At the start of the buffer nothing happens.
    pub open spec fn backspace(self) -> Document {
        if self.col > 0 {
            Document {
                lines: self.lines.update(self.row, self.line().remove(self.col - 1)),
                row: self.row,
                col: self.col - 1,
            }
        } else if self.row > 0 {
            Document {
                lines: self.lines.update(
                    self.row - 1,
                    self.lines[self.row - 1] + self.line(),
                ).remove(self.row),
                row: self.row - 1,
                col: self.lines[self.row - 1].len() as int,
            }
        } else {
            self
        }
    }

    /// On an empty line, the line itself goes, unless it is the only one, and the
    /// cursor moves to the start of the line above (of the first line, where there
    /// is none above). Elsewhere the character at the cursor goes, if there is one.
    pub open spec fn delete(self) -> Document {
        if self.col == 0 && self.line().len() == 0 {
            if self.lines.len() > 1 {
                Document {
                    lines: self.lines.remove(self.row),
                    row: if self.row > 0 { self.row - 1 } else { 0 },
                    col: 0,
                }
            } else {
                self
            }
        } else if self.col < self.line().len() {
            Document { lines: self.lines.update(self.row, self.line().remove(self.col)), ..self }
        } else {
            self
        }
    }

    /// One column to the left, unless the cursor is at the start of its line.
    pub open spec fn move_left(self) -> Document {
        Document { col: if self.col > 0 { self.col - 1 } else { 0 }, ..self }
    }

    /// One column to the right, unless the cursor is behind the end of its line.
    pub open spec fn move_right(self) -> Document {
        Document { col: if self.col < self.line().len() { self.col + 1 } else { self.col }, ..self }
    }

    /// The cursor on `row`, its column capped by that line's length.
    pub open spec fn on_row(self, row: int) -> Document {
        Document {
            row,
            col: if self.col <= self.lines[row].len() { self.col } else { self.lines[row].len() as int },
            ..self
        }
    }

    /// One line up, unless the cursor is on the first line.
    pub open spec fn move_up(self) -> Document {
        if self.row > 0 { self.on_row(self.row - 1) } else { self }
    }

    /// One line down, unless the cursor is on the last line.
    pub open spec fn move_down(self) -> Document {
        if self.row < self.lines.len() - 1 { self.on_row(self.row + 1) } else { self }
    }
}

/// The lines of a buffer as sequences of characters.
pub open spec fn lines_of(buffer: Seq<String>) -> Seq<Seq<char>> {
    Seq::new(buffer.len(), |i: int| buffer[i]@)
}

/// The document that a buffer and a cursor stand for.
pub open spec fn document(buffer: Seq<String>, cursor: Cursor) -> Document {
    Document { lines: lines_of(buffer), row: cursor.y as int, col: cursor.x as int }
}

/// Whether the cursor is in the text: on a line of the buffer, and on or right
/// behind one of that line's characters.
pub fn cursor_in_text(buffer: &Vec<String>, cursor: &Cursor) -> (inside: bool)
    ensures
        inside == document(buffer@, *cursor).wf(),
{
    cursor.y < buffer.len() && cursor.x <= char_count(buffer[cursor.y].as_str())
}

/// Inserts `c` at the cursor.
pub fn insert_char(buffer: &mut Vec<String>, cursor: &mut Cursor, c: char)
    requires
        document(old(buffer)@, *old(cursor)).wf(),
    ensures
        document(final(buffer)@, *final(cursor)) == document(old(buffer)@, *old(cursor)).insert_char(c),
        document(final(buffer)@, *final(cursor)).wf(),
{
    let line = insert_char_at(buffer[cursor.y].as_str(), cursor.x, c);
    buffer[cursor.y] = line;
    cursor.x = cursor.x + 1;
    assert(lines_of(buffer@) =~= document(old(buffer)@, *old(cursor)).insert_char(c).lines);
}

/// Breaks the cursor's line at the cursor.
pub fn insert_line_break(buffer: &mut Vec<String>, cursor: &mut Cursor)
    requires
        document(old(buffer)@, *old(cursor)).wf(),
    ensures
        document(final(buffer)@, *final(cursor)) == document(old(buffer)@, *old(cursor)).split_line(),
        document(final(buffer)@, *final(cursor)).wf(),
{
    assert(buffer@.len() == buffer.len());
    let head = head_of(buffer[cursor.y].as_str(), cursor.x);
    let tail = tail_of(buffer[cursor.y].as_str(), cursor.x);
    buffer[cursor.y] = head;
    buffer.insert(cursor.y + 1, tail);
    cursor.y = cursor.y + 1;
    cursor.x = 0;
    assert(lines_of(buffer@) =~= document(old(buffer)@, *old(cursor)).split_line().lines);
}

/// Opens an empty line below the cursor's line and puts the cursor there.
pub fn open_line_below(buffer: &mut Vec<String>, cursor: &mut Cursor)
    requires
        document(old(buffer)@, *old(cursor)).wf(),
    ensures
        document(final(buffer)@, *final(cursor)) == document(
            old(buffer)@,
            *old(cursor),
        ).open_line_below(),
        document(final(buffer)@, *final(cursor)).wf(),
{
    assert(buffer@.len() == buffer.len());
    buffer.insert(cursor.y + 1, String::new());
    cursor.y = cursor.y + 1;
    cursor.x = 0;
    assert(lines_of(buffer@) =~= document(old(buffer)@, *old(cursor)).open_line_below().lines);
}

/// Removes the character before the cursor, or joins the cursor's line to the one
/// above when the cursor is at the start of a line.
pub fn handle_backspace(buffer: &mut Vec<String>, cursor: &mut Cursor)
    requires
        document(old(buffer)@, *old(cursor)).wf(),
    ensures
        document(final(buffer)@, *final(cursor)) == document(old(buffer)@, *old(cursor)).backspace(),
        document(final(buffer)@, *final(cursor)).wf(),
{
    if cursor.x > 0 {
        let line = remove_char_at(buffer[cursor.y].as_str(), cursor.x - 1);
        buffer[cursor.y] = line;
        cursor.x = cursor.x - 1;
    } else if cursor.y > 0 {
        let removed_line = buffer.remove(cursor.y);
        cursor.y = cursor.y - 1;
        cursor.x = char_count(buffer[cursor.y].as_str());
        let joined = concat(buffer[cursor.y].as_str(), removed_line.as_str());
        buffer[cursor.y] = joined;
    }
    assert(lines_of(buffer@) =~= document(old(buffer)@, *old(cursor)).backspace().lines);
}

/// Removes the cursor's line if it is empty and not the only one, else the
/// character at the cursor, if there is one.
pub fn handle_delete(buffer: &mut Vec<String>, cursor: &mut Cursor)
    requires
        document(old(buffer)@, *old(cursor)).wf(),
    ensures
        document(final(buffer)@, *final(cursor)) == document(old(buffer)@, *old(cursor)).delete(),
        document(final(buffer)@, *final(cursor)).wf(),
{
    let count: usize = char_count(buffer[cursor.y].as_str());
    if cursor.x == 0 && count == 0 {
        if buffer.len() > 1 {
            let _ = buffer.remove(cursor.y);
            if cursor.y > 0 {
                cursor.y = cursor.y - 1;
            }
            cursor.x = 0;
        }
    } else if cursor.x < count {
        let line = remove_char_at(buffer[cursor.y].as_str(), cursor.x);
        buffer[cursor.y] = line;
    }
    assert(lines_of(buffer@) =~= document(old(buffer)@, *old(cursor)).delete().lines);
}

/// Moves the cursor one column to the left.
pub fn move_left(buffer: &Vec<String>, cursor: &mut Cursor)
    requires
        document(buffer@, *old(cursor)).wf(),
    ensures
        document(buffer@, *final(cursor)) == document(buffer@, *old(cursor)).move_left(),
        document(buffer@, *final(cursor)).wf(),
{
    if cursor.x > 0 {
        cursor.x = cursor.x - 1;
    }
}

/// Moves the cursor one column to the right.
pub fn move_right(buffer: &Vec<String>, cursor: &mut Cursor)
    requires
        document(buffer@, *old(cursor)).wf(),
    ensures
        document(buffer@, *final(cursor)) == document(buffer@, *old(cursor)).move_right(),
        document(buffer@, *final(cursor)).wf(),
{
    if cursor.x < char_count(buffer[cursor.y].as_str()) {
        cursor.x = cursor.x + 1;
    }
}

/// Moves the cursor one line up.
pub fn move_up(buffer: &Vec<String>, cursor: &mut Cursor)
    requires
        document(buffer@, *old(cursor)).wf(),
    ensures
        document(buffer@, *final(cursor)) == document(buffer@, *old(cursor)).move_up(),
        document(buffer@, *final(cursor)).wf(),
{
    if cursor.y > 0 {
        cursor.y = cursor.y - 1;
        let count: usize = char_count(buffer[cursor.y].as_str());
        if cursor.x > count {
            cursor.x = count;
        }
    }
}

/// Moves the cursor one line down.
pub fn move_down(buffer: &Vec<String>, cursor: &mut Cursor)
    requires
        document(buffer@, *old(cursor)).wf(),
    ensures
        document(buffer@, *final(cursor)) == document(buffer@, *old(cursor)).move_down(),
        document(buffer@, *final(cursor)).wf(),
{
    if cursor.y < buffer.len() - 1 {
        cursor.y = cursor.y + 1;
        let count: usize = char_count(buffer[cursor.y].as_str());
        if cursor.x > count {
            cursor.x = count;
        }
    }
}

} // verus!
