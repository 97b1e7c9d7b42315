//! Colouring the text of a status message.

use ratatui::style::Stylize;
use vstd::prelude::*;
use crate::lines::{
    are_single_lines, is_one_line, lemma_scanned_one_line, lemma_scanned_single_lines, scanned,
    split_lines,
};

verus! {

/// `text` with its line endings taken out: its lines, one after the other.
pub open spec fn unbroken(text: Seq<char>) -> Seq<char> {
    split_lines(text).flatten()
}

/// Lines without line feeds give a text without line feeds when they are put one
/// after the other.
proof fn lemma_flatten_single_lines(lines: Seq<Seq<char>>)
    requires
        are_single_lines(lines),
    ensures
        is_one_line(lines.flatten()),
    decreases lines.len(),
{
    if lines.len() > 0 {
        assert(is_one_line(lines.last()));
        assert forall|i: int| 0 <= i < lines.drop_last().len() implies is_one_line(
            #[trigger] lines.drop_last()[i],
        ) by {
            assert(lines.drop_last()[i] == lines[i]);
        }
        lemma_flatten_single_lines(lines.drop_last());
        lines.drop_last().lemma_flatten_push(lines.last());
        assert(lines.drop_last().push(lines.last()) =~= lines);
    }
}

/// A text without line feeds has no line endings to lose: it is its own unbroken
/// form.
pub proof fn lemma_unbroken_one_line(text: Seq<char>)
    requires
        is_one_line(text),
    ensures
        unbroken(text) == text,
{
    lemma_scanned_one_line(text);
    if text.len() > 0 {
        Seq::<Seq<char>>::empty().lemma_flatten_push(text);
        assert(Seq::<Seq<char>>::empty().flatten() =~= Seq::<char>::empty());
        assert(unbroken(text) =~= text);
    } else {
        assert(unbroken(text) =~= text);
    }
}

/// The unbroken form of a text holds no line feed, so that taking the line
/// endings out a second time changes nothing.
pub proof fn lemma_unbroken_twice(text: Seq<char>)
    ensures
        is_one_line(unbroken(text)),
        unbroken(unbroken(text)) == unbroken(text),
{
    lemma_scanned_single_lines(text);
    let (ended, open) = scanned(text);
    if open.len() > 0 {
        assert forall|i: int| 0 <= i < ended.push(open).len() implies is_one_line(
            #[trigger] ended.push(open)[i],
        ) by {
            if i < ended.len() {
                assert(ended.push(open)[i] == ended[i]);
            }
        }
    }
    lemma_flatten_single_lines(split_lines(text));
    lemma_unbroken_one_line(unbroken(text));
}

/// `Stylize::light_red` of ratatui on a `String`, then `to_string` on the `Span`
/// that it gives. The span holds the text as it is, with the colour beside it;
/// written out it is the text's lines one after the other, and no colour.
#[verifier::external_body]
pub(crate) fn light_red(text: String) -> (written: String)
    ensures
        written@ == unbroken(text@),
{
    text.light_red().to_string()
}

/// `Stylize::light_yellow` of ratatui on a `String`, then `to_string` on the
/// `Span` that it gives. The span holds the text as it is, with the colour beside
/// it; written out it is the text's lines one after the other, and no colour.
#[verifier::external_body]
pub(crate) fn light_yellow(text: String) -> (written: String)
    ensures
        written@ == unbroken(text@),
{
    text.light_yellow().to_string()
}

/// `Stylize::yellow` of ratatui on a `String`, then `to_string` on the `Span` that
/// it gives. The span holds the text as it is, with the colour beside it; written
/// out it is the text's lines one after the other, and no colour.
#[verifier::external_body]
pub(crate) fn yellow(text: String) -> (written: String)
    ensures
        written@ == unbroken(text@),
{
    text.yellow().to_string()
}

} // verus!
