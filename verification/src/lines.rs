//! Text as lines: cutting a text into lines and joining lines into a text.

use vstd::prelude::*;
use vstd::string::*;
use crate::buffer::lines_of;
use crate::text::{char_count, head_of, push_char};

verus! {

/// `line` without the carriage return at its end, if it ends in one.
pub open spec fn without_final_cr(line: Seq<char>) -> Seq<char> {
    if line.len() > 0 && line.last() == '\r' {
        line.drop_last()
    } else {
        line
    }
}

/// Reading `text` from its start: the lines that have ended, each without its
/// line feed and without a carriage return before that, and the characters of the
/// line that has not ended yet.
pub open spec fn scanned(text: Seq<char>) -> (Seq<Seq<char>>, Seq<char>)
    decreases text.len(),
{
    if text.len() == 0 {
        (Seq::empty(), Seq::empty())
    } else {
        let (ended, open) = scanned(text.drop_last());
        if text.last() == '\n' {
            (ended.push(without_final_cr(open)), Seq::empty())
        } else {
            (ended, open.push(text.last()))
        }
    }
}

/// The lines of `text`. A line ends with a line feed, or with a carriage return
/// and a line feed; neither belongs to the line. What follows the last line feed
/// is a line too, as it stands, unless nothing follows it.
pub open spec fn split_lines(text: Seq<char>) -> Seq<Seq<char>> {
    let (ended, open) = scanned(text);
    if open.len() > 0 {
        ended.push(open)
    } else {
        ended
    }
}

/// The lines that a session starts with when the file holds `content`: the
/// lines of `content`, or one empty line where `content` is empty.
pub open spec fn initial_lines(content: Seq<char>) -> Seq<Seq<char>> {
    if content.len() == 0 {
        seq![Seq::<char>::empty()]
    } else {
        split_lines(content)
    }
}

/// The lines joined into one text, with a line feed between each two.
pub open spec fn join_lines(lines: Seq<Seq<char>>) -> Seq<char>
    decreases lines.len(),
{
    if lines.len() == 0 {
        Seq::empty()
    } else if lines.len() == 1 {
        lines[0]
    } else {
        join_lines(lines.drop_last()) + seq!['\n'] + lines.last()
    }
}

/// Whether `text` is free of line feeds.
pub open spec fn is_one_line(text: Seq<char>) -> bool {
    forall|i: int| 0 <= i < text.len() ==> text[i] != '\n'
}

/// Whether every line of `lines` is free of line feeds.
pub open spec fn are_single_lines(lines: Seq<Seq<char>>) -> bool {
    forall|i: int| 0 <= i < lines.len() ==> is_one_line(#[trigger] lines[i])
}

/// A text without a line feed is read as one line that has not ended.
pub proof fn lemma_scanned_one_line(text: Seq<char>)
    requires
        is_one_line(text),
    ensures
        scanned(text) == (Seq::<Seq<char>>::empty(), text),
    decreases text.len(),
{
    if text.len() > 0 {
        lemma_scanned_one_line(text.drop_last());
        assert(text.drop_last().push(text.last()) =~= text);
    }
}

/// No line that a text is read into holds a line feed.
pub proof fn lemma_scanned_single_lines(text: Seq<char>)
    ensures
        are_single_lines(scanned(text).0),
        is_one_line(scanned(text).1),
    decreases text.len(),
{
    if text.len() > 0 {
        lemma_scanned_single_lines(text.drop_last());
        let (ended, open) = scanned(text.drop_last());
        if text.last() == '\n' {
            assert(is_one_line(without_final_cr(open)));
            assert forall|i: int| 0 <= i < ended.push(without_final_cr(open)).len() implies is_one_line(
                #[trigger] ended.push(without_final_cr(open))[i],
            ) by {
                if i < ended.len() {
                    assert(ended.push(without_final_cr(open))[i] == ended[i]);
                }
            }
        }
    }
}

/// Reading on through a piece without line feeds adds the piece to the line that
/// has not ended.
pub proof fn lemma_scanned_further(text: Seq<char>, more: Seq<char>)
    requires
        is_one_line(more),
    ensures
        scanned(text + more) == (scanned(text).0, scanned(text).1 + more),
    decreases more.len(),
{
    if more.len() == 0 {
        assert(text + more =~= text);
        assert(scanned(text).1 + more =~= scanned(text).1);
    } else {
        lemma_scanned_further(text, more.drop_last());
        assert((text + more).drop_last() =~= text + more.drop_last());
        assert(scanned(text).1 + more =~= (scanned(text).1 + more.drop_last()).push(more.last()));
    }
}

/// Whether `lines` can be told from their text: no line holds a line feed, none
/// but the last ends in a carriage return, and the last is empty only if it is
/// the only one.
pub open spec fn are_kept_by_text(lines: Seq<Seq<char>>) -> bool {
    &&& lines.len() >= 1
    &&& are_single_lines(lines)
    &&& forall|i: int| 0 <= i < lines.len() - 1 ==> without_final_cr(#[trigger] lines[i]) == lines[i]
    &&& lines.len() > 1 ==> lines.last().len() > 0
}

/// The text of such lines is read as the lines but the last, ended, and the last,
/// not ended.
proof fn lemma_scanned_join(lines: Seq<Seq<char>>)
    requires
        lines.len() >= 1,
        are_single_lines(lines),
        forall|i: int| 0 <= i < lines.len() - 1 ==> without_final_cr(#[trigger] lines[i]) == lines[i],
    ensures
        scanned(join_lines(lines)) == (lines.drop_last(), lines.last()),
    decreases lines.len(),
{
    if lines.len() == 1 {
        lemma_scanned_one_line(lines[0]);
        assert(lines.drop_last() =~= Seq::<Seq<char>>::empty());
    } else {
        let above = lines.drop_last();
        assert forall|i: int| 0 <= i < above.len() implies is_one_line(#[trigger] above[i]) by {
            assert(above[i] == lines[i]);
        }
        assert forall|i: int| 0 <= i < above.len() - 1 implies without_final_cr(
            #[trigger] above[i],
        ) == above[i] by {
            assert(above[i] == lines[i]);
        }
        lemma_scanned_join(above);
        let ended = join_lines(above) + seq!['\n'];
        assert(ended.drop_last() =~= join_lines(above));
        assert(above.last() == lines[lines.len() - 2]);
        assert(scanned(ended) == (above.drop_last().push(above.last()), Seq::<char>::empty()));
        assert(above.drop_last().push(above.last()) =~= above);
        assert(is_one_line(lines.last()));
        lemma_scanned_further(ended, lines.last());
        assert(Seq::<char>::empty() + lines.last() =~= lines.last());
    }
}

/// What is written is read back: the text of a buffer, cut into lines as a
/// session does at its start, gives the buffer's lines again, where the lines can
/// be told from their text.
pub proof fn lemma_text_is_read_back(lines: Seq<Seq<char>>)
    requires
        are_kept_by_text(lines),
    ensures
        initial_lines(join_lines(lines)) == lines,
{
    lemma_scanned_join(lines);
    if lines.len() == 1 {
        assert(lines.drop_last() =~= Seq::<Seq<char>>::empty());
        assert(Seq::<Seq<char>>::empty().push(lines.last()) =~= lines);
        assert(seq![Seq::<char>::empty()] =~= Seq::<Seq<char>>::empty().push(Seq::<char>::empty()));
    } else {
        assert(join_lines(lines).len() > 0);
        assert(lines.drop_last().push(lines.last()) =~= lines);
    }
}

/// A text that is not empty has at least one line.
pub proof fn lemma_text_has_a_line(text: Seq<char>)
    requires
        text.len() > 0,
    ensures
        split_lines(text).len() >= 1,
{
}

/// `line` without the carriage return at its end, if it ends in one.
fn strip_final_cr(line: String) -> (stripped: String)
    ensures
        stripped@ == without_final_cr(line@),
{
    let count: usize = char_count(line.as_str());
    if count > 0 && line.as_str().get_char(count - 1) == '\r' {
        let stripped = head_of(line.as_str(), count - 1);
        assert(stripped@ =~= line@.drop_last());
        stripped
    } else {
        line
    }
}

/// The buffer that a session starts with when the file holds `content`.
pub fn initialize_buffer(content: &str) -> (buffer: Vec<String>)
    ensures
        lines_of(buffer@) == initial_lines(content@),
        buffer@.len() >= 1,
{
    let mut ended: Vec<String> = Vec::new();
    let mut open = String::new();
    for c in it: content.chars()
        invariant
            it.seq() == content@,
            (lines_of(ended@), open@) == scanned(content@.take(it.index() as int)),
    {
        assert(content@.take(it.index() + 1).drop_last() =~= content@.take(it.index() as int));
        if c == '\n' {
            let line = strip_final_cr(open);
            ended.push(line);
            open = String::new();
            assert(lines_of(ended@) =~= scanned(content@.take(it.index() + 1)).0);
        } else {
            push_char(&mut open, c);
        }
    }
    assert(content@.take(content@.len() as int) =~= content@);
    if !open.as_str().is_empty() || content.is_empty() {
        ended.push(open);
    }
    assert(lines_of(ended@) =~= initial_lines(content@));
    proof {
        if content@.len() > 0 {
            lemma_text_has_a_line(content@);
        }
    }
    ended
}

/// The text of a buffer: its lines with a line feed between each two, and none
/// behind the last.
pub fn join_buffer(buffer: &Vec<String>) -> (text: String)
    ensures
        text@ == join_lines(lines_of(buffer@)),
{
    let ghost lines = lines_of(buffer@);
    let mut text = String::new();
    let mut i: usize = 0;
    while i < buffer.len()
        invariant
            i <= buffer@.len(),
            lines == lines_of(buffer@),
            text@ == join_lines(lines.take(i as int)),
        decreases buffer@.len() - i,
    {
        proof {
            reveal_strlit("\n");
            assert(lines.take(i + 1).drop_last() =~= lines.take(i as int));
        }
        if i > 0 {
            text.append("\n");
            assert(text@ =~= join_lines(lines.take(i as int)) + seq!['\n']);
        }
        text.append(buffer[i].as_str());
        i = i + 1;
    }
    assert(lines.take(buffer@.len() as int) =~= lines);
    text
}

} // verus!
