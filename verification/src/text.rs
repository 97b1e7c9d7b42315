//! Editing one line of text by character position.

use vstd::prelude::*;
use vstd::string::*;

verus! {

/// `String::push` of std, which appends one character to the end of the string.
#[verifier::external_body]
pub(crate) fn push_char(text: &mut String, c: char)
    ensures
        final(text)@ == old(text)@.push(c),
{
    text.push(c)
}

/// The number of characters in `line`.
pub(crate) fn char_count(line: &str) -> (count: usize)
    ensures
        count == line@.len(),
{
    line.unicode_len()
}

/// The first `col` characters of `line`.
pub(crate) fn head_of(line: &str, col: usize) -> (head: String)
    requires
        col <= line@.len(),
    ensures
        head@ == line@.take(col as int),
{
    String::from_str(line.substring_char(0, col))
}

/// What follows the first `col` characters of `line`.
pub(crate) fn tail_of(line: &str, col: usize) -> (tail: String)
    requires
        col <= line@.len(),
    ensures
        tail@ == line@.skip(col as int),
{
    let count: usize = line.unicode_len();
    String::from_str(line.substring_char(col, count))
}

/// `first` followed by `second`.
pub(crate) fn concat(first: &str, second: &str) -> (joined: String)
    ensures
        joined@ == first@ + second@,
{
    let mut joined = String::from_str(first);
    joined.append(second);
    joined
}

/// `line` with `c` put in front of the character at `col`.
pub(crate) fn insert_char_at(line: &str, col: usize, c: char) -> (out: String)
    requires
        col <= line@.len(),
    ensures
        out@ == line@.insert(col as int, c),
        out@.len() <= usize::MAX,
{
    let count: usize = line.unicode_len();
    let mut out = String::from_str(line.substring_char(0, col));
    push_char(&mut out, c);
    out.append(line.substring_char(col, count));
    assert(out@ =~= line@.insert(col as int, c));
    // Counted, the characters are known to be no more than a column can say.
    let _count: usize = out.as_str().unicode_len();
    out
}

/// `line` without the character at `col`.
pub(crate) fn remove_char_at(line: &str, col: usize) -> (out: String)
    requires
        col < line@.len(),
    ensures
        out@ == line@.remove(col as int),
{
    let count: usize = line.unicode_len();
    let mut out = String::from_str(line.substring_char(0, col));
    out.append(line.substring_char(col + 1, count));
    assert(out@ =~= line@.remove(col as int));
    out
}

} // verus!
