use emacs_like::set_syntax_higlight::{
    highlight, lines_with_endings, set_syntax_higlight, syntax_return, HighlightError,
};
use syntect::easy::HighlightLines;
use syntect::highlighting::ThemeSet;
use syntect::parsing::SyntaxSet;
use syntect::util::{as_24_bit_terminal_escaped, LinesWithEndings};

fn by_syntect(content: &str, extension: &str) -> String {
    let syntaxes = SyntaxSet::load_defaults_newlines();
    let themes = ThemeSet::load_defaults();
    let syntax = syntaxes.find_syntax_by_extension(extension).unwrap();
    let mut highlighter = HighlightLines::new(syntax, &themes.themes["base16-eighties.dark"]);
    let mut shown = vec![String::new()];
    for line in LinesWithEndings::from(content) {
        let pieces = highlighter.highlight_line(line, &syntaxes).unwrap();
        shown.push(as_24_bit_terminal_escaped(&pieces[..], true));
    }
    shown.join("\n")
}

#[test]
fn unknown_extension_gives_the_text_back() {
    let content = "fn main() {}\nlet x = 1;\n";
    assert_eq!(syntax_return(content, "no-such-extension"), Ok(content.to_string()));
    assert_eq!(syntax_return("", "no-such-extension"), Ok(String::new()));
}

#[test]
fn known_extension_gives_escaped_lines() {
    let content = "fn main() {\n    let x = 1;\n}";
    let shown = syntax_return(content, "rs").unwrap();
    assert_ne!(shown, content);
    assert!(shown.starts_with('\n'));
    assert!(shown.contains("\x1b[38;2;"));
    assert!(shown.contains("\x1b[48;2;"));
    assert!(shown.contains("main"));
    assert_eq!(shown, by_syntect(content, "rs"));
}

#[test]
fn highlighting_agrees_with_syntect_line_by_line() {
    for (content, extension) in [
        ("print('a')\n\n# done\n", "py"),
        ("{\"a\": [1, 2]}", "json"),
        ("/* open\nstill open\nclosed */ int x;\r\n", "c"),
        ("\n", "rs"),
    ] {
        assert_eq!(syntax_return(content, extension), Ok(by_syntect(content, extension)));
    }
}

#[test]
fn extension_is_found_in_either_case() {
    let content = "fn main() {}";
    assert_eq!(syntax_return(content, "RS"), Ok(by_syntect(content, "rs")));
}

#[test]
fn empty_text_is_highlighted_to_nothing() {
    assert_eq!(syntax_return("", "rs"), Ok(String::new()));
}

#[test]
fn missing_theme_is_an_error() {
    let syntaxes = SyntaxSet::load_defaults_newlines();
    let themes = ThemeSet::new();
    assert_eq!(highlight(&syntaxes, &themes, "fn main() {}", "rs"), Err(HighlightError::ThemeMissing));
    assert_eq!(
        highlight(&syntaxes, &themes, "fn main() {}", "no-such-extension"),
        Ok("fn main() {}".to_string())
    );
}

#[test]
fn unknown_extension_with_no_syntaxes_at_all() {
    let syntaxes = SyntaxSet::new();
    let themes = ThemeSet::load_defaults();
    assert_eq!(highlight(&syntaxes, &themes, "fn main() {}", "rs"), Ok("fn main() {}".to_string()));
}

#[test]
fn lines_keep_their_endings() {
    assert_eq!(lines_with_endings("foo\nbar\nbaz"), ["foo\n", "bar\n", "baz"]);
    assert_eq!(lines_with_endings("foo\r\nbar\n"), ["foo\r\n", "bar\n"]);
    assert_eq!(lines_with_endings("\n\n"), ["\n", "\n"]);
    assert_eq!(lines_with_endings("no ending"), ["no ending"]);
    assert!(lines_with_endings("").is_empty());
    for content in ["a\n\nb", "é\nü", "\r\n\r", "x\n"] {
        let expected: Vec<&str> = LinesWithEndings::from(content).collect();
        assert_eq!(lines_with_endings(content), expected);
    }
}

#[test]
fn switching_highlighting_has_no_effect() {
    set_syntax_higlight(false);
    let content = "fn main() {}";
    let shown = syntax_return(content, "rs");
    set_syntax_higlight(true);
    assert_eq!(syntax_return(content, "rs"), shown);
}

#[test]
fn syntects_own_themes_hold_the_editors_theme() {
    for extension in ["rs", "py", "c", "json", "md", "no-such-extension"] {
        let shown = syntax_return("x = 1\n", extension);
        assert_ne!(shown, Err(HighlightError::ThemeMissing));
        assert!(shown.is_ok());
    }
}

#[test]
fn highlighter_keeps_what_it_knows_of_earlier_lines() {
    let open = syntax_return("/* open\nx */ y\n", "c").unwrap();
    let closed = syntax_return("/* shut */\nx */ y\n", "c").unwrap();
    let last_of = |text: &str| text.rsplit("\n\n").next().unwrap().to_string();
    assert_ne!(last_of(&open), last_of(&closed));
}
