use emacs_like::buffer::{
    cursor_in_text, handle_backspace, handle_delete, insert_char, insert_line_break, move_down,
    move_left, move_right, move_up, open_line_below,
};
use emacs_like::types::Cursor;

fn buffer_of(lines: &[&str]) -> Vec<String> {
    lines.iter().map(|line| line.to_string()).collect()
}

#[test]
fn insert_at_end_of_line() {
    let mut buffer = buffer_of(&["abc"]);
    let mut cursor = Cursor { x: 3, y: 0 };
    insert_char(&mut buffer, &mut cursor, 'd');
    assert_eq!(buffer, buffer_of(&["abcd"]));
    assert_eq!(cursor, Cursor { x: 4, y: 0 });
}

#[test]
fn insert_inside_line_leaves_other_lines() {
    let mut buffer = buffer_of(&["one", "tw", "three"]);
    let mut cursor = Cursor { x: 2, y: 1 };
    insert_char(&mut buffer, &mut cursor, 'o');
    assert_eq!(buffer, buffer_of(&["one", "two", "three"]));
    assert_eq!(cursor, Cursor { x: 3, y: 1 });
    let mut cursor = Cursor { x: 0, y: 0 };
    insert_char(&mut buffer, &mut cursor, '>');
    assert_eq!(buffer, buffer_of(&[">one", "two", "three"]));
    assert_eq!(cursor, Cursor { x: 1, y: 0 });
}

#[test]
fn columns_count_characters() {
    let mut buffer = buffer_of(&["héllo"]);
    let mut cursor = Cursor { x: 2, y: 0 };
    insert_char(&mut buffer, &mut cursor, 'ß');
    assert_eq!(buffer, buffer_of(&["héßllo"]));
    assert_eq!(cursor, Cursor { x: 3, y: 0 });
    handle_backspace(&mut buffer, &mut cursor);
    handle_backspace(&mut buffer, &mut cursor);
    assert_eq!(buffer, buffer_of(&["hllo"]));
    assert_eq!(cursor, Cursor { x: 1, y: 0 });
    let mut cursor = Cursor { x: 0, y: 0 };
    let mut accents = buffer_of(&["éé"]);
    move_right(&accents, &mut cursor);
    move_right(&accents, &mut cursor);
    move_right(&accents, &mut cursor);
    assert_eq!(cursor, Cursor { x: 2, y: 0 });
    handle_delete(&mut accents, &mut Cursor { x: 1, y: 0 });
    assert_eq!(accents, buffer_of(&["é"]));
}

#[test]
fn backspace_joins_lines() {
    let mut buffer = buffer_of(&["ab", "cd"]);
    let mut cursor = Cursor { x: 0, y: 1 };
    handle_backspace(&mut buffer, &mut cursor);
    assert_eq!(buffer, buffer_of(&["abcd"]));
    assert_eq!(cursor, Cursor { x: 2, y: 0 });
}

#[test]
fn backspace_removes_character_before_cursor() {
    let mut buffer = buffer_of(&["abc", "def"]);
    let mut cursor = Cursor { x: 2, y: 1 };
    handle_backspace(&mut buffer, &mut cursor);
    assert_eq!(buffer, buffer_of(&["abc", "df"]));
    assert_eq!(cursor, Cursor { x: 1, y: 1 });
}

#[test]
fn backspace_at_start_of_buffer_does_nothing() {
    let mut buffer = buffer_of(&["abc", "def"]);
    let mut cursor = Cursor { x: 0, y: 0 };
    handle_backspace(&mut buffer, &mut cursor);
    assert_eq!(buffer, buffer_of(&["abc", "def"]));
    assert_eq!(cursor, Cursor { x: 0, y: 0 });
}

#[test]
fn enter_splits_line() {
    let mut buffer = buffer_of(&["abc"]);
    let mut cursor = Cursor { x: 1, y: 0 };
    insert_line_break(&mut buffer, &mut cursor);
    assert_eq!(buffer, buffer_of(&["a", "bc"]));
    assert_eq!(cursor, Cursor { x: 0, y: 1 });
}

#[test]
fn enter_at_the_ends_of_a_line() {
    let mut buffer = buffer_of(&["abc", "x"]);
    let mut cursor = Cursor { x: 3, y: 0 };
    insert_line_break(&mut buffer, &mut cursor);
    assert_eq!(buffer, buffer_of(&["abc", "", "x"]));
    assert_eq!(cursor, Cursor { x: 0, y: 1 });
    let mut cursor = Cursor { x: 0, y: 0 };
    insert_line_break(&mut buffer, &mut cursor);
    assert_eq!(buffer, buffer_of(&["", "abc", "", "x"]));
    assert_eq!(cursor, Cursor { x: 0, y: 1 });
}

#[test]
fn insert_then_backspace_round_trip() {
    let before = buffer_of(&["first", "second", "third"]);
    for (x, y) in [(0, 0), (5, 0), (3, 1), (6, 1), (0, 2), (2, 2)] {
        let mut buffer = before.clone();
        let mut cursor = Cursor { x, y };
        insert_char(&mut buffer, &mut cursor, '#');
        assert_ne!(buffer, before);
        handle_backspace(&mut buffer, &mut cursor);
        assert_eq!(buffer, before);
        assert_eq!(cursor, Cursor { x, y });
    }
}

#[test]
fn split_then_backspace_round_trip() {
    let before = buffer_of(&["first", "", "third"]);
    for (x, y) in [(0, 0), (2, 0), (5, 0), (0, 1), (0, 2), (5, 2)] {
        let mut buffer = before.clone();
        let mut cursor = Cursor { x, y };
        insert_line_break(&mut buffer, &mut cursor);
        assert_eq!(buffer.len(), 4);
        assert_eq!(cursor, Cursor { x: 0, y: y + 1 });
        handle_backspace(&mut buffer, &mut cursor);
        assert_eq!(buffer, before);
        assert_eq!(cursor, Cursor { x, y });
    }
}

#[test]
fn open_line_below_moves_to_new_line() {
    let mut buffer = buffer_of(&["abc", "def"]);
    let mut cursor = Cursor { x: 2, y: 0 };
    open_line_below(&mut buffer, &mut cursor);
    assert_eq!(buffer, buffer_of(&["abc", "", "def"]));
    assert_eq!(cursor, Cursor { x: 0, y: 1 });
    let mut cursor = Cursor { x: 1, y: 2 };
    open_line_below(&mut buffer, &mut cursor);
    assert_eq!(buffer, buffer_of(&["abc", "", "def", ""]));
    assert_eq!(cursor, Cursor { x: 0, y: 3 });
}

#[test]
fn open_then_delete_restores_lines() {
    let before = buffer_of(&["abc", "def"]);
    let mut buffer = before.clone();
    let mut cursor = Cursor { x: 2, y: 0 };
    open_line_below(&mut buffer, &mut cursor);
    handle_delete(&mut buffer, &mut cursor);
    assert_eq!(buffer, before);
    assert_eq!(cursor, Cursor { x: 0, y: 0 });
}

#[test]
fn delete_removes_empty_line() {
    let mut buffer = buffer_of(&["abc", "", "def"]);
    let mut cursor = Cursor { x: 0, y: 1 };
    handle_delete(&mut buffer, &mut cursor);
    assert_eq!(buffer, buffer_of(&["abc", "def"]));
    assert_eq!(cursor, Cursor { x: 0, y: 0 });
}

#[test]
fn delete_removes_empty_first_line() {
    let mut buffer = buffer_of(&["", "def"]);
    let mut cursor = Cursor { x: 0, y: 0 };
    handle_delete(&mut buffer, &mut cursor);
    assert_eq!(buffer, buffer_of(&["def"]));
    assert_eq!(cursor, Cursor { x: 0, y: 0 });
}

#[test]
fn delete_removes_character_at_cursor() {
    let mut buffer = buffer_of(&["abc"]);
    let mut cursor = Cursor { x: 0, y: 0 };
    handle_delete(&mut buffer, &mut cursor);
    assert_eq!(buffer, buffer_of(&["bc"]));
    assert_eq!(cursor, Cursor { x: 0, y: 0 });
    let mut cursor = Cursor { x: 1, y: 0 };
    handle_delete(&mut buffer, &mut cursor);
    assert_eq!(buffer, buffer_of(&["b"]));
    assert_eq!(cursor, Cursor { x: 1, y: 0 });
}

#[test]
fn delete_past_end_of_line_does_nothing() {
    let mut buffer = buffer_of(&["abc", "def"]);
    let mut cursor = Cursor { x: 3, y: 0 };
    handle_delete(&mut buffer, &mut cursor);
    assert_eq!(buffer, buffer_of(&["abc", "def"]));
    assert_eq!(cursor, Cursor { x: 3, y: 0 });
}

#[test]
fn buffer_never_loses_its_last_line() {
    let mut buffer = buffer_of(&[""]);
    let mut cursor = Cursor { x: 0, y: 0 };
    handle_delete(&mut buffer, &mut cursor);
    assert_eq!(buffer, buffer_of(&[""]));
    assert_eq!(cursor, Cursor { x: 0, y: 0 });
    handle_backspace(&mut buffer, &mut cursor);
    assert_eq!(buffer, buffer_of(&[""]));
    assert_eq!(cursor, Cursor { x: 0, y: 0 });

    let mut buffer = buffer_of(&["ab", "", "c"]);
    let mut cursor = Cursor { x: 1, y: 2 };
    for _ in 0..20 {
        handle_backspace(&mut buffer, &mut cursor);
        handle_delete(&mut buffer, &mut cursor);
        assert!(buffer.len() >= 1);
        assert!(cursor.y < buffer.len());
        assert!(cursor.x <= buffer[cursor.y].chars().count());
    }
    assert_eq!(buffer, buffer_of(&[""]));
    assert_eq!(cursor, Cursor { x: 0, y: 0 });
}

#[test]
fn horizontal_moves_stay_on_the_line() {
    let buffer = buffer_of(&["ab", "cdef"]);
    let mut cursor = Cursor { x: 1, y: 0 };
    move_right(&buffer, &mut cursor);
    assert_eq!(cursor, Cursor { x: 2, y: 0 });
    move_right(&buffer, &mut cursor);
    assert_eq!(cursor, Cursor { x: 2, y: 0 });
    move_left(&buffer, &mut cursor);
    move_left(&buffer, &mut cursor);
    assert_eq!(cursor, Cursor { x: 0, y: 0 });
    move_left(&buffer, &mut cursor);
    assert_eq!(cursor, Cursor { x: 0, y: 0 });
}

#[test]
fn vertical_moves_stop_at_first_and_last_line() {
    let buffer = buffer_of(&["ab", "cdef"]);
    let mut cursor = Cursor { x: 1, y: 0 };
    move_up(&buffer, &mut cursor);
    assert_eq!(cursor, Cursor { x: 1, y: 0 });
    move_down(&buffer, &mut cursor);
    assert_eq!(cursor, Cursor { x: 1, y: 1 });
    move_down(&buffer, &mut cursor);
    assert_eq!(cursor, Cursor { x: 1, y: 1 });
}

#[test]
fn vertical_moves_cap_the_column() {
    let buffer = buffer_of(&["ab", "cdef", ""]);
    let mut cursor = Cursor { x: 4, y: 1 };
    move_up(&buffer, &mut cursor);
    assert_eq!(cursor, Cursor { x: 2, y: 0 });
    move_down(&buffer, &mut cursor);
    assert_eq!(cursor, Cursor { x: 2, y: 1 });
    move_down(&buffer, &mut cursor);
    assert_eq!(cursor, Cursor { x: 0, y: 2 });
}

#[test]
fn moves_never_leave_the_text() {
    let buffer = buffer_of(&["abc", "", "de", "fghij"]);
    for y in 0..buffer.len() {
        for x in 0..=buffer[y].len() {
            for direction in 0..4 {
                let mut cursor = Cursor { x, y };
                match direction {
                    0 => move_left(&buffer, &mut cursor),
                    1 => move_right(&buffer, &mut cursor),
                    2 => move_up(&buffer, &mut cursor),
                    _ => move_down(&buffer, &mut cursor),
                }
                assert!(cursor.y < buffer.len());
                assert!(cursor.x <= buffer[cursor.y].len());
            }
        }
    }
}

#[test]
fn cursor_is_in_the_text_up_to_the_end_of_its_line() {
    let buffer = buffer_of(&["ab", "", "héé"]);
    assert!(cursor_in_text(&buffer, &Cursor { x: 0, y: 0 }));
    assert!(cursor_in_text(&buffer, &Cursor { x: 2, y: 0 }));
    assert!(!cursor_in_text(&buffer, &Cursor { x: 3, y: 0 }));
    assert!(cursor_in_text(&buffer, &Cursor { x: 0, y: 1 }));
    assert!(!cursor_in_text(&buffer, &Cursor { x: 1, y: 1 }));
    assert!(cursor_in_text(&buffer, &Cursor { x: 3, y: 2 }));
    assert!(!cursor_in_text(&buffer, &Cursor { x: 4, y: 2 }));
    assert!(!cursor_in_text(&buffer, &Cursor { x: 0, y: 3 }));
    assert!(!cursor_in_text(&Vec::new(), &Cursor { x: 0, y: 0 }));
}
