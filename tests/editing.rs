use externkit::text::{join_lines, split_lines};
use externkit::{start_editor, Editor};

fn chars(s: &str) -> Vec<char> {
    s.chars().collect()
}

fn doc(lines: &[&str], x: usize, y: usize) -> Editor {
    Editor {
        content: lines.iter().map(|l| chars(l)).collect(),
        cursor_x: x,
        cursor_y: y,
        offset_y: 0,
        filename: None,
        modified: false,
        terminal_height: 24,
        terminal_width: 80,
    }
}

fn lines_of(e: &Editor) -> Vec<String> {
    e.content.iter().map(|l| l.iter().collect()).collect()
}

#[test]
fn new_document_is_one_empty_line() {
    let e = Editor::new(80, 24);
    assert_eq!(lines_of(&e), vec![String::new()]);
    assert_eq!((e.cursor_x, e.cursor_y, e.offset_y), (0, 0, 0));
    assert!(!e.modified);
    assert!(e.filename.is_none());
}

#[test]
fn open_missing_file_gives_empty_named_document() {
    let e = Editor::open_file(chars("new.txt"), None, 80, 24);
    assert_eq!(lines_of(&e), vec![String::new()]);
    assert!(!e.modified);
    assert_eq!(e.filename, Some(chars("new.txt")));
}

#[test]
fn open_empty_file_gives_one_empty_line() {
    let e = Editor::open_file(chars("a.txt"), Some(Vec::new()), 80, 24);
    assert_eq!(lines_of(&e), vec![String::new()]);
}

#[test]
fn open_splits_on_newlines_and_crlf() {
    let e = Editor::open_file(chars("a.txt"), Some(chars("one\r\ntwo\n\nthree\n")), 80, 24);
    assert_eq!(lines_of(&e), vec!["one", "two", "", "three", ""]);
}

#[test]
fn start_without_name_is_unnamed() {
    let e = start_editor(None, Some(chars("ignored")), 80, 24);
    assert_eq!(lines_of(&e), vec![String::new()]);
    assert!(e.filename.is_none());
    let f = start_editor(Some(chars("f")), Some(chars("x\ny")), 80, 24);
    assert_eq!(lines_of(&f), vec!["x", "y"]);
}

#[test]
fn newline_at_line_end_adds_empty_line() {
    let mut e = doc(&["abc"], 3, 0);
    e.insert_newline();
    assert_eq!(lines_of(&e), vec!["abc", ""]);
    assert_eq!((e.cursor_y, e.cursor_x), (1, 0));
    assert!(e.modified);
}

#[test]
fn newline_in_middle_splits_line() {
    let mut e = doc(&["hello"], 2, 0);
    e.insert_newline();
    assert_eq!(lines_of(&e), vec!["he", "llo"]);
    assert_eq!((e.cursor_y, e.cursor_x), (1, 0));
}

#[test]
fn backspace_at_line_start_joins_lines() {
    let mut e = doc(&["ab", "cd"], 0, 1);
    e.delete_char();
    assert_eq!(lines_of(&e), vec!["abcd"]);
    assert_eq!((e.cursor_y, e.cursor_x), (0, 2));
    assert!(e.modified);
}

#[test]
fn backspace_at_document_start_does_nothing() {
    let mut e = doc(&["ab"], 0, 0);
    e.delete_char();
    assert_eq!(lines_of(&e), vec!["ab"]);
    assert_eq!((e.cursor_y, e.cursor_x), (0, 0));
    assert!(!e.modified);
}

#[test]
fn insert_then_backspace_restores() {
    let mut e = doc(&["abc", "de"], 1, 0);
    e.insert_char('Z');
    assert_eq!(lines_of(&e), vec!["aZbc", "de"]);
    assert_eq!(e.cursor_x, 2);
    e.delete_char();
    assert_eq!(lines_of(&e), vec!["abc", "de"]);
    assert_eq!((e.cursor_y, e.cursor_x), (0, 1));
}

#[test]
fn newline_then_backspace_restores() {
    let mut e = doc(&["hello"], 2, 0);
    e.insert_newline();
    e.delete_char();
    assert_eq!(lines_of(&e), vec!["hello"]);
    assert_eq!((e.cursor_y, e.cursor_x), (0, 2));
}

#[test]
fn delete_forward_removes_char_under_cursor() {
    let mut e = doc(&["abc"], 1, 0);
    e.delete_char_forward();
    assert_eq!(lines_of(&e), vec!["ac"]);
    assert_eq!(e.cursor_x, 1);
}

#[test]
fn delete_forward_at_line_end_joins_next() {
    let mut e = doc(&["ab", "cd"], 2, 0);
    e.delete_char_forward();
    assert_eq!(lines_of(&e), vec!["abcd"]);
    assert_eq!((e.cursor_y, e.cursor_x), (0, 2));
}

#[test]
fn delete_forward_at_document_end_does_nothing() {
    let mut e = doc(&["ab", "cd"], 2, 1);
    e.delete_char_forward();
    assert_eq!(lines_of(&e), vec!["ab", "cd"]);
    assert!(!e.modified);
}

#[test]
fn clamp_pulls_column_to_line_end() {
    let mut e = doc(&["abc"], 7, 0);
    e.clamp_cursor_x();
    assert_eq!(e.cursor_x, 3);
    let mut f = doc(&["abc"], 2, 0);
    f.clamp_cursor_x();
    assert_eq!(f.cursor_x, 2);
}

#[test]
fn vertical_moves_clamp_column() {
    let mut e = doc(&["abcdef", "ab", "abcd"], 5, 0);
    e.move_cursor_down();
    assert_eq!((e.cursor_y, e.cursor_x), (1, 2));
    e.move_cursor_down();
    assert_eq!((e.cursor_y, e.cursor_x), (2, 2));
    e.move_cursor_up();
    e.move_cursor_up();
    assert_eq!((e.cursor_y, e.cursor_x), (0, 2));
    e.move_cursor_up();
    assert_eq!((e.cursor_y, e.cursor_x), (0, 2));
}

#[test]
fn move_down_past_last_line_stays_on_last_line() {
    let mut e = doc(&["long line", "x", "abc"], 8, 0);
    for _ in 0..10 {
        e.move_cursor_down();
        assert!(e.cursor_x <= e.content[e.cursor_y].len());
    }
    assert_eq!(e.cursor_y, 2);
    assert_eq!(e.cursor_x, 1);
    assert_eq!(lines_of(&e), vec!["long line", "x", "abc"]);
}

#[test]
fn horizontal_moves_wrap_at_line_ends() {
    let mut e = doc(&["ab", "cd"], 2, 0);
    e.move_cursor_right();
    assert_eq!((e.cursor_y, e.cursor_x), (1, 0));
    e.move_cursor_left();
    assert_eq!((e.cursor_y, e.cursor_x), (0, 2));
    let mut s = doc(&["ab"], 0, 0);
    s.move_cursor_left();
    assert_eq!((s.cursor_y, s.cursor_x), (0, 0));
    let mut t = doc(&["ab"], 2, 0);
    t.move_cursor_right();
    assert_eq!((t.cursor_y, t.cursor_x), (0, 2));
}

#[test]
fn scrolling_follows_cursor() {
    let mut e = doc(&["a", "b", "c", "d", "e", "f"], 0, 0);
    e.terminal_height = 5;
    e.move_cursor_down();
    e.move_cursor_down();
    assert_eq!(e.offset_y, 0);
    e.move_cursor_down();
    assert_eq!((e.cursor_y, e.offset_y), (3, 1));
    e.move_cursor_down();
    e.move_cursor_down();
    assert_eq!((e.cursor_y, e.offset_y), (5, 3));
    e.move_cursor_up();
    e.move_cursor_up();
    assert_eq!(e.offset_y, 3);
    e.move_cursor_up();
    assert_eq!((e.cursor_y, e.offset_y), (2, 2));
}

#[test]
fn column_stays_in_line_after_mixed_operations() {
    let mut e = doc(&["hello", "", "wide line here"], 0, 0);
    let mut seed: u32 = 7;
    for _ in 0..300 {
        seed = seed.wrapping_mul(1103515245).wrapping_add(12345);
        match (seed >> 16) % 9 {
            0 => e.insert_char('q'),
            1 => e.insert_newline(),
            2 => e.delete_char(),
            3 => e.delete_char_forward(),
            4 => e.move_cursor_up(),
            5 => e.move_cursor_down(),
            6 => e.move_cursor_left(),
            7 => e.move_cursor_right(),
            _ => e.clamp_cursor_x(),
        }
        assert!(!e.content.is_empty());
        assert!(e.cursor_y < e.content.len());
        assert!(e.cursor_x <= e.content[e.cursor_y].len());
        assert!(e.offset_y <= e.cursor_y);
    }
}

#[test]
fn save_then_open_gives_same_lines() {
    let e = doc(&["hello", "world"], 0, 0);
    let text = e.text();
    assert_eq!(text, chars("hello\nworld"));
    let back = Editor::open_file(chars("f.txt"), Some(text), 80, 24);
    assert_eq!(lines_of(&back), vec!["hello", "world"]);
}

#[test]
fn save_then_open_keeps_trailing_empty_line() {
    let mut e = Editor::new(80, 24);
    e.insert_char('a');
    e.insert_newline();
    assert_eq!(lines_of(&e), vec!["a", ""]);
    let text = e.text();
    assert_eq!(text, chars("a\n"));
    let back = Editor::open_file(chars("f.txt"), Some(text), 80, 24);
    assert_eq!(lines_of(&back), vec!["a", ""]);
    let two_empty = doc(&["", ""], 0, 0);
    let back = Editor::open_file(chars("g.txt"), Some(two_empty.text()), 80, 24);
    assert_eq!(lines_of(&back), vec!["", ""]);
}

#[test]
fn mark_saved_as_names_document() {
    let mut e = doc(&["a"], 0, 0);
    e.insert_char('b');
    e.mark_saved_as(chars("out.txt"));
    assert!(!e.modified);
    assert_eq!(e.filename, Some(chars("out.txt")));
    assert_eq!(lines_of(&e), vec!["ba"]);
}

#[test]
fn join_and_split_are_inverse_on_plain_lines() {
    let lines: Vec<Vec<char>> = vec![chars("a"), chars(""), chars("b\r"), chars("c")];
    let joined = join_lines(&lines);
    assert_eq!(joined, chars("a\n\nb\r\nc"));
    let split = split_lines(&joined);
    assert_eq!(split, vec![chars("a"), chars(""), chars("b"), chars("c")]);
    assert_eq!(split_lines(&Vec::new()), vec![Vec::<char>::new()]);
}

#[test]
fn mark_saved_clears_modified() {
    let mut e = doc(&["a"], 0, 0);
    e.insert_char('b');
    assert!(e.modified);
    e.mark_saved();
    assert!(!e.modified);
    assert_eq!(lines_of(&e), vec!["ba"]);
}

#[test]
fn home_and_end_move_within_line() {
    let mut e = doc(&["abcd"], 2, 0);
    e.move_to_line_end();
    assert_eq!(e.cursor_x, 4);
    e.move_to_line_start();
    assert_eq!(e.cursor_x, 0);
}
