use emacs_like::files::save_file;
use emacs_like::lines::{initialize_buffer, join_buffer};
use emacs_like::types::{Message, MessageType};

fn buffer_of(lines: &[&str]) -> Vec<String> {
    lines.iter().map(|line| line.to_string()).collect()
}

#[test]
fn empty_content_gives_one_empty_line() {
    assert_eq!(initialize_buffer(""), buffer_of(&[""]));
}

#[test]
fn content_is_cut_at_line_feeds() {
    assert_eq!(initialize_buffer("abc"), buffer_of(&["abc"]));
    assert_eq!(initialize_buffer("a\nbc\nd"), buffer_of(&["a", "bc", "d"]));
    assert_eq!(initialize_buffer("a\n\nb"), buffer_of(&["a", "", "b"]));
}

#[test]
fn final_line_feed_adds_no_line() {
    assert_eq!(initialize_buffer("a\nb\n"), buffer_of(&["a", "b"]));
    assert_eq!(initialize_buffer("\n"), buffer_of(&[""]));
    assert_eq!(initialize_buffer("\n\n"), buffer_of(&["", ""]));
    assert_eq!(initialize_buffer("a\n\n"), buffer_of(&["a", ""]));
}

#[test]
fn carriage_return_before_line_feed_belongs_to_the_ending() {
    assert_eq!(initialize_buffer("a\r\nb\r\n"), buffer_of(&["a", "b"]));
    assert_eq!(initialize_buffer("a\r\r\nb"), buffer_of(&["a\r", "b"]));
    assert_eq!(initialize_buffer("\r\n"), buffer_of(&[""]));
}

#[test]
fn other_carriage_returns_stay() {
    assert_eq!(initialize_buffer("a\rb\nc\r"), buffer_of(&["a\rb", "c\r"]));
    assert_eq!(initialize_buffer("\r"), buffer_of(&["\r"]));
}

#[test]
fn buffer_is_cut_as_std_cuts_lines() {
    for content in ["x", "x\n", "\nx", "x\r\ny", "x\n\r\n\ny\r", "é\nü\r\n", "\r\r\n\r"] {
        let expected: Vec<String> = content.lines().map(String::from).collect();
        assert_eq!(initialize_buffer(content), expected);
    }
}

#[test]
fn lines_are_joined_with_single_line_feeds() {
    assert_eq!(join_buffer(&buffer_of(&["a", "bc", "d"])), "a\nbc\nd");
    assert_eq!(join_buffer(&buffer_of(&["abc"])), "abc");
    assert_eq!(join_buffer(&buffer_of(&[""])), "");
    assert_eq!(join_buffer(&buffer_of(&["", ""])), "\n");
    assert_eq!(join_buffer(&buffer_of(&["a", ""])), "a\n");
    assert_eq!(join_buffer(&Vec::new()), "");
}

#[test]
fn joined_buffer_is_cut_into_the_same_lines() {
    let buffer = buffer_of(&["fn main() {", "    let x = 1;", "", "}"]);
    assert_eq!(initialize_buffer(&join_buffer(&buffer)), buffer);
}

#[test]
fn successful_save_marks_buffer_saved() {
    let mut message = Message::default();
    let mut saved = false;
    let mut content = "old".to_string();
    let buffer = buffer_of(&["new", "text"]);
    save_file("notes.txt", &buffer, &mut message, Ok(()), &mut content, &mut saved);
    assert!(saved);
    assert_eq!(content, "new\ntext");
    assert_eq!(message.text, " Writed to notes.txt ");
    assert_eq!(message.message_type, MessageType::Info);
    assert!(message.displayed);
    assert_eq!(message.count, 0);
}

#[test]
fn failed_save_reports_error_and_keeps_flag() {
    let mut message = Message::default();
    let mut saved = false;
    let mut content = "old".to_string();
    let buffer = buffer_of(&["new", "text"]);
    let denied = Err("permission denied".to_string());
    save_file("notes.txt", &buffer, &mut message, denied, &mut content, &mut saved);
    assert!(!saved);
    assert_eq!(content, "old");
    assert_eq!(message.text, " Failed to write file: permission denied ");
    assert_eq!(message.message_type, MessageType::Error);
    assert!(message.displayed);

    let mut saved = true;
    let full = Err("disk full".to_string());
    save_file("notes.txt", &buffer, &mut message, full, &mut content, &mut saved);
    assert!(saved);
    assert_eq!(content, "old");
    assert_eq!(message.text, " Failed to write file: disk full ");
}

#[test]
fn save_messages_are_written_on_one_line() {
    let mut message = Message::default();
    let mut saved = false;
    let mut content = String::new();
    let buffer = buffer_of(&[""]);
    save_file("two\nlines.txt", &buffer, &mut message, Ok(()), &mut content, &mut saved);
    assert_eq!(message.text, " Writed to twolines.txt ");
    let failed = Err("first\r\nsecond\nthird".to_string());
    save_file("f", &buffer, &mut message, failed, &mut content, &mut saved);
    assert_eq!(message.text, " Failed to write file: firstsecondthird ");
}
