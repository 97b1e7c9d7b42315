//! Syntax highlighting: a text with terminal escape codes for its colours.

use syntect::easy::HighlightLines;
use syntect::highlighting::{Style, Theme, ThemeSet};
use syntect::parsing::{SyntaxReference, SyntaxSet};
use syntect::util::as_24_bit_terminal_escaped;
use vstd::prelude::*;
use vstd::string::*;
use crate::buffer::lines_of;
use crate::lines::{join_buffer, join_lines};
use crate::text::push_char;

verus! {

/// `syntect::parsing::SyntaxSet`: a set of syntax definitions.
#[verifier::external_type_specification]
#[verifier::external_body]
pub struct ExSyntaxSet(SyntaxSet);

/// `syntect::parsing::SyntaxReference`: one syntax definition of a set.
#[verifier::external_type_specification]
#[verifier::external_body]
pub struct ExSyntaxReference(SyntaxReference);

/// `syntect::highlighting::ThemeSet`: a set of colour themes, each under its name.
#[verifier::external_type_specification]
#[verifier::external_body]
pub struct ExThemeSet(ThemeSet);

/// `syntect::highlighting::Theme`: one colour theme.
#[verifier::external_type_specification]
#[verifier::external_body]
pub struct ExTheme(Theme);

/// `syntect::highlighting::Style`: the colours and the font style of a piece of
/// text.
#[verifier::external_type_specification]
#[verifier::external_body]
pub struct ExStyle(Style);

/// `syntect::easy::HighlightLines`: a highlighter, which is fed a text line by
/// line and keeps what it needs to know of the lines before.
#[verifier::external_type_specification]
#[verifier::external_body]
pub struct ExHighlightLines<'a>(HighlightLines<'a>);

/// `syntect::Error`: what can go wrong inside syntect.
#[verifier::external_type_specification]
#[verifier::external_body]
pub struct ExSyntectError(syntect::Error);

/// Whether a set of syntaxes is fit to highlight with, as the sets are that
/// syntect's own loaders make: each of its syntaxes has the contexts that parsing
/// starts from, every context that one of them refers to is in the set, and every
/// pattern compiles.
pub uninterp spec fn is_linked(syntaxes: SyntaxSet) -> bool;

/// What `SyntaxSet::find_syntax_by_extension` finds in a set for an extension.
pub uninterp spec fn syntax_found(syntaxes: SyntaxSet, extension: Seq<char>) -> Option<
    SyntaxReference,
>;

/// The theme that a set of themes holds under a name, if it holds one.
pub uninterp spec fn theme_under(themes: ThemeSet, name: Seq<char>) -> Option<Theme>;

/// The highlighter that `HighlightLines::new` makes for a syntax and a theme.
pub uninterp spec fn started(syntax: SyntaxReference, theme: Theme) -> HighlightLines<'static>;

/// What `HighlightLines::highlight_line` returns for a line: the pieces of the
/// line with their styles, or nothing where the parser meets an error.
pub uninterp spec fn line_pieces(
    state: HighlightLines<'static>,
    line: Seq<char>,
    syntaxes: SyntaxSet,
) -> Option<Seq<(Style, Seq<char>)>>;

/// The highlighter as `HighlightLines::highlight_line` leaves it after a line.
pub uninterp spec fn state_after(
    state: HighlightLines<'static>,
    line: Seq<char>,
    syntaxes: SyntaxSet,
) -> HighlightLines<'static>;

/// What `as_24_bit_terminal_escaped` returns for pieces with their styles.
pub uninterp spec fn escaped(pieces: Seq<(Style, Seq<char>)>, background: bool) -> Seq<char>;

/// Pieces of text with their styles, each piece as its characters.
pub open spec fn pieces_of(pieces: Seq<(Style, &str)>) -> Seq<(Style, Seq<char>)> {
    Seq::new(pieces.len(), |i: int| (pieces[i].0, pieces[i].1@))
}

/// How far a text has been highlighted: the highlighter as the lines so far have
/// left it, those lines with their escape codes, and the number of the line on
/// which the parser gave up, if it did.
pub struct Progress {
    pub state: HighlightLines<'static>,
    pub escaped: Seq<Seq<char>>,
    pub failed: Option<int>,
}

/// The progress after `lines` have been fed to a highlighter at `start`, one
/// after the other, with the background colour in the escape codes. Nothing is
/// fed after a line on which the parser gave up.
pub open spec fn progress(
    start: HighlightLines<'static>,
    syntaxes: SyntaxSet,
    lines: Seq<Seq<char>>,
) -> Progress
    decreases lines.len(),
{
    if lines.len() == 0 {
        Progress { state: start, escaped: Seq::empty(), failed: None }
    } else {
        let before = progress(start, syntaxes, lines.drop_last());
        if before.failed is Some {
            before
        } else {
            match line_pieces(before.state, lines.last(), syntaxes) {
                Some(pieces) => Progress {
                    state: state_after(before.state, lines.last(), syntaxes),
                    escaped: before.escaped.push(escaped(pieces, true)),
                    failed: None,
                },
                None => Progress { failed: Some(lines.len() - 1), ..before },
            }
        }
    }
}

/// Whether a highlighter belongs to a set of syntaxes: it was started for a
/// syntax that the set gave, and has been fed lines with that set since.
pub open spec fn belongs_to(state: HighlightLines<'static>, syntaxes: SyntaxSet) -> bool {
    exists|extension: Seq<char>, theme: Theme, lines: Seq<Seq<char>>|
        syntax_found(syntaxes, extension) is Some && (#[trigger] progress(
            started(syntax_found(syntaxes, extension)->0, theme),
            syntaxes,
            lines,
        )).state == state
}

/// `SyntaxSet::load_defaults_newlines` of syntect: the syntaxes that syntect
/// brings with it, for lines that keep their line feed. syntect made the set with
/// its own loader, which gives each syntax its start contexts and tries every
/// pattern.
#[verifier::external_body]
fn load_syntaxes() -> (syntaxes: SyntaxSet)
    ensures
        is_linked(syntaxes),
{
    SyntaxSet::load_defaults_newlines()
}

/// `ThemeSet::load_defaults` of syntect: the themes that syntect brings with it.
/// Its documentation lists their names, and the editor's theme is among them.
#[verifier::external_body]
fn load_themes() -> (themes: ThemeSet)
    ensures
        theme_under(themes, theme_name()) is Some,
{
    ThemeSet::load_defaults()
}

/// `SyntaxSet::find_syntax_by_extension` of syntect: a syntax of the set that
/// lists `extension`, the case of ASCII letters aside, or nothing where the set
/// has none.
#[verifier::external_body]
fn find_syntax<'a>(syntaxes: &'a SyntaxSet, extension: &str) -> (found: Option<&'a SyntaxReference>)
    ensures
        match found {
            Some(syntax) => syntax_found(*syntaxes, extension@) == Some(*syntax),
            None => syntax_found(*syntaxes, extension@) is None,
        },
{
    syntaxes.find_syntax_by_extension(extension)
}

/// The lookup of a theme by its name in the map `themes` of a `ThemeSet` of
/// syntect: the theme, if the set holds one under `name`, and nothing if not.
#[verifier::external_body]
fn find_theme<'a>(themes: &'a ThemeSet, name: &str) -> (found: Option<&'a Theme>)
    ensures
        match found {
            Some(theme) => theme_under(*themes, name@) == Some(*theme),
            None => theme_under(*themes, name@) is None,
        },
{
    themes.themes.get(name)
}

/// `HighlightLines::new` of syntect: a highlighter at the start of a text in the
/// given syntax, with the colours of the given theme. The syntax is to come from
/// a set that is fit to highlight with: syntect looks up its start context.
#[verifier::external_body]
fn new_highlighter<'a>(syntax: &SyntaxReference, theme: &'a Theme) -> (highlighter: HighlightLines<
    'a,
>)
    requires
        exists|syntaxes: SyntaxSet, extension: Seq<char>|
            is_linked(syntaxes) && #[trigger] syntax_found(syntaxes, extension) == Some(*syntax),
    ensures
        highlighter == started(*syntax, *theme),
{
    HighlightLines::new(syntax, theme)
}

/// `HighlightLines::highlight_line` of syntect: the next line of the text, cut
/// into pieces with their styles, or the error that the parser met. The set is
/// to be fit to highlight with and the highlighter is to belong to it: syntect
/// finds the highlighter's contexts in the set by their numbers.
#[verifier::external_body]
fn highlight_line<'b>(
    highlighter: &mut HighlightLines<'_>,
    line: &'b str,
    syntaxes: &SyntaxSet,
) -> (cut: Result<Vec<(Style, &'b str)>, syntect::Error>)
    requires
        is_linked(*syntaxes),
        belongs_to(*old(highlighter), *syntaxes),
    ensures
        match cut {
            Ok(pieces) => line_pieces(*old(highlighter), line@, *syntaxes) == Some(
                pieces_of(pieces@),
            ),
            Err(_) => line_pieces(*old(highlighter), line@, *syntaxes) is None,
        },
        *final(highlighter) == state_after(*old(highlighter), line@, *syntaxes),
{
    highlighter.highlight_line(line, syntaxes)
}

/// `as_24_bit_terminal_escaped` of syntect: the pieces one after the other, each
/// behind the escape codes of its colours.
#[verifier::external_body]
fn escape(pieces: &Vec<(Style, &str)>, background: bool) -> (text: String)
    ensures
        text@ == escaped(pieces_of(pieces@), background),
{
    as_24_bit_terminal_escaped(&pieces[..], background)
}

/// Why a text could not be highlighted.
#[derive(Debug, Clone, Copy, PartialEq, Eq, Structural)]
pub enum HighlightError {
    /// The themes do not hold the theme that the editor uses.
    ThemeMissing,
    /// The parser gave up on the line with this number, counted from zero.
    LineFailed(usize),
}

/// Reading `text` from its start: the lines that have ended, each with its line
/// feed, and the characters of the line that has not ended yet.
pub open spec fn cut(text: Seq<char>) -> (Seq<Seq<char>>, Seq<char>)
    decreases text.len(),
{
    if text.len() == 0 {
        (Seq::empty(), Seq::empty())
    } else {
        let (ended, open) = cut(text.drop_last());
        if text.last() == '\n' {
            (ended.push(open.push('\n')), Seq::empty())
        } else {
            (ended, open.push(text.last()))
        }
    }
}

/// The lines of `text` with their endings: each line reaches up to and with its
/// line feed; what follows the last line feed is a line too, unless nothing does.
pub open spec fn whole_lines(text: Seq<char>) -> Seq<Seq<char>> {
    let (ended, open) = cut(text);
    if open.len() > 0 {
        ended.push(open)
    } else {
        ended
    }
}

/// A highlighted text: an empty line, then the highlighted lines, with a line
/// feed between each two.
pub open spec fn assembled(escaped: Seq<Seq<char>>) -> Seq<char> {
    join_lines(seq![Seq::<char>::empty()] + escaped)
}

/// The name of the theme that the editor uses.
pub open spec fn theme_name() -> Seq<char> {
    "base16-eighties.dark"@
}

/// Switches syntax highlighting on or off. It has no effect.
pub fn set_syntax_higlight(enable: bool) {
}

/// Cuts `content` into its lines, each with its ending.
pub fn lines_with_endings(content: &str) -> (lines: Vec<String>)
    ensures
        lines_of(lines@) == whole_lines(content@),
{
    let mut ended: Vec<String> = Vec::new();
    let mut open = String::new();
    for c in it: content.chars()
        invariant
            it.seq() == content@,
            (lines_of(ended@), open@) == cut(content@.take(it.index() as int)),
    {
        assert(content@.take(it.index() + 1).drop_last() =~= content@.take(it.index() as int));
        push_char(&mut open, c);
        if c == '\n' {
            ended.push(open);
            open = String::new();
            assert(lines_of(ended@) =~= cut(content@.take(it.index() + 1)).0);
        }
    }
    assert(content@.take(content@.len() as int) =~= content@);
    if !open.as_str().is_empty() {
        ended.push(open);
    }
    assert(lines_of(ended@) =~= whole_lines(content@));
    ended
}

/// What highlighting `content` as a file with the given extension gives, with
/// the syntaxes and themes at hand.
///
/// Where the syntaxes have no syntax for the extension, the text as it is. Else
/// the text is fed to a highlighter line by line, each line with its ending, in
/// the colours of the editor's theme: the result is an empty line followed by the
/// lines with their escape codes, or the number of the first line on which the
/// parser gave up. Without the editor's theme there is nothing to highlight with.
pub open spec fn highlighted(
    syntaxes: SyntaxSet,
    themes: ThemeSet,
    content: Seq<char>,
    extension: Seq<char>,
) -> Result<Seq<char>, HighlightError> {
    match syntax_found(syntaxes, extension) {
        None => Ok(content),
        Some(syntax) => match theme_under(themes, theme_name()) {
            None => Err(HighlightError::ThemeMissing),
            Some(theme) => {
                let end = progress(started(syntax, theme), syntaxes, whole_lines(content));
                match end.failed {
                    Some(line) => Err(HighlightError::LineFailed(line as usize)),
                    None => Ok(assembled(end.escaped)),
                }
            },
        },
    }
}

/// A result of highlighting with the text as its characters.
pub open spec fn text_of(shown: Result<String, HighlightError>) -> Result<
    Seq<char>,
    HighlightError,
> {
    match shown {
        Ok(text) => Ok(text@),
        Err(error) => Err(error),
    }
}

/// Highlights `content` as a file with the given extension, with the syntaxes
/// and themes at hand. The syntaxes are to be fit to highlight with.
pub fn highlight(
    syntaxes: &SyntaxSet,
    themes: &ThemeSet,
    content: &str,
    extension: &str,
) -> (shown: Result<String, HighlightError>)
    requires
        is_linked(*syntaxes),
    ensures
        text_of(shown) == highlighted(*syntaxes, *themes, content@, extension@),
{
    let syntax = match find_syntax(syntaxes, extension) {
        Some(syntax) => syntax,
        None => {
            return Ok(String::from_str(content));
        },
    };
    let theme = match find_theme(themes, "base16-eighties.dark") {
        Some(theme) => theme,
        None => {
            return Err(HighlightError::ThemeMissing);
        },
    };
    let mut highlighter = new_highlighter(syntax, theme);
    let ghost start = started(*syntax, *theme);
    let lines = lines_with_endings(content);
    let mut shown: Vec<String> = Vec::new();
    shown.push(String::new());
    let mut i: usize = 0;
    proof {
        assert(lines_of(lines@).take(0) =~= Seq::<Seq<char>>::empty());
        assert(lines_of(shown@).skip(1) =~= Seq::<Seq<char>>::empty());
    }
    while i < lines.len()
        invariant
            is_linked(*syntaxes),
            syntax_found(*syntaxes, extension@) == Some(*syntax),
            theme_under(*themes, theme_name()) == Some(*theme),
            start == started(*syntax, *theme),
            lines_of(lines@) == whole_lines(content@),
            i <= lines@.len(),
            shown@.len() == i + 1,
            shown@[0]@ == Seq::<char>::empty(),
            progress(start, *syntaxes, lines_of(lines@).take(i as int)) == (Progress {
                state: highlighter,
                escaped: lines_of(shown@).skip(1),
                failed: None,
            }),
        decreases lines@.len() - i,
    {
        let ghost fed = lines_of(lines@).take(i as int);
        proof {
            assert(lines_of(lines@).take(i + 1).drop_last() =~= fed);
            assert(lines_of(lines@).take(i + 1).last() == lines@[i as int]@);
            assert(progress(start, *syntaxes, fed).state == highlighter);
        }
        match highlight_line(&mut highlighter, lines[i].as_str(), syntaxes) {
            Ok(pieces) => {
                let ghost earlier = lines_of(shown@);
                shown.push(escape(&pieces, true));
                assert(lines_of(shown@).skip(1) =~= earlier.skip(1).push(
                    escaped(pieces_of(pieces@), true),
                ));
            },
            Err(_) => {
                proof {
                    lemma_progress_stays_failed(
                        start,
                        *syntaxes,
                        lines_of(lines@),
                        (i + 1) as int,
                    );
                }
                return Err(HighlightError::LineFailed(i));
            },
        }
        i = i + 1;
    }
    let text = join_buffer(&shown);
    proof {
        assert(lines_of(lines@).take(lines@.len() as int) =~= lines_of(lines@));
        assert(lines_of(shown@) =~= seq![Seq::<char>::empty()] + lines_of(shown@).skip(1));
    }
    Ok(text)
}

/// Once the parser has given up on a line, the lines that follow change nothing.
proof fn lemma_progress_stays_failed(
    start: HighlightLines<'static>,
    syntaxes: SyntaxSet,
    lines: Seq<Seq<char>>,
    count: int,
)
    requires
        0 <= count <= lines.len(),
        progress(start, syntaxes, lines.take(count)).failed is Some,
    ensures
        progress(start, syntaxes, lines) == progress(start, syntaxes, lines.take(count)),
    decreases lines.len() - count,
{
    if count == lines.len() {
        assert(lines.take(count) =~= lines);
    } else {
        assert(lines.take(count + 1).drop_last() =~= lines.take(count));
        lemma_progress_stays_failed(start, syntaxes, lines, count + 1);
    }
}

/// Highlights `content` as a file with the given extension, with the syntaxes
/// and themes that syntect brings with it. The editor's theme is among them.
pub fn syntax_return(content: &str, extension: &str) -> (shown: Result<String, HighlightError>)
    ensures
        exists|syntaxes: SyntaxSet, themes: ThemeSet|
            is_linked(syntaxes) && theme_under(themes, theme_name()) is Some && text_of(shown)
                == #[trigger] highlighted(syntaxes, themes, content@, extension@),
        content@.len() == 0 ==> shown is Ok && shown->Ok_0@.len() == 0,
        match shown {
            Ok(_) => true,
            Err(HighlightError::LineFailed(line)) => line < whole_lines(content@).len(),
            Err(HighlightError::ThemeMissing) => false,
        },
{
    let syntaxes = load_syntaxes();
    let themes = load_themes();
    let shown = highlight(&syntaxes, &themes, content, extension);
    proof {
        lemma_failed_line_is_a_line(
            started(syntax_found(syntaxes, extension@)->0, theme_under(themes, theme_name())->0),
            syntaxes,
            whole_lines(content@),
        );
    }
    shown
}

/// The line on which the parser gave up is one of the lines.
proof fn lemma_failed_line_is_a_line(
    start: HighlightLines<'static>,
    syntaxes: SyntaxSet,
    lines: Seq<Seq<char>>,
)
    ensures
        progress(start, syntaxes, lines).failed matches Some(line) ==> 0 <= line < lines.len(),
    decreases lines.len(),
{
    if lines.len() > 0 {
        lemma_failed_line_is_a_line(start, syntaxes, lines.drop_last());
    }
}

} // verus!
