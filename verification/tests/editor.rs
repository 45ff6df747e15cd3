use radicle_terminal::editor::{
    join_before, join_from, join_with, join_without, show_between, Document, Editor, Position, Row,
};
use radicle_terminal::events::Key;
use radicle_terminal::layout::Rect;

fn area() -> Rect {
    Rect { x: 0, y: 0, width: 80, height: 19 }
}

fn text_of(row: &Row) -> String {
    String::from_utf8(row.as_bytes().to_vec()).unwrap()
}

fn rows_of(document: &Document) -> Vec<String> {
    (0..document.len()).map(|i| text_of(document.row(i).unwrap())).collect()
}

#[test]
fn document_from_text_and_insert() {
    let mut document = Document::new(String::from("ab\ncd"));
    assert_eq!(document.len(), 2);
    assert_eq!(document.row(0).unwrap().len(), 2);
    assert_eq!(document.row(1).unwrap().len(), 2);
    document.insert(&Position { x: 1, y: 0 }, 'X');
    assert_eq!(text_of(document.row(0).unwrap()), "aXb");
    assert_eq!(document.row(0).unwrap().len(), 3);
    assert_eq!(text_of(document.row(1).unwrap()), "cd");
}

#[test]
fn insert_then_delete_restores_the_row() {
    let mut document = Document::new(String::from("ab\ncd"));
    for x in 0..3 {
        document.insert(&Position { x, y: 1 }, 'X');
        assert_eq!(document.row(1).unwrap().len(), 3);
        document.delete(&Position { x, y: 1 });
        assert_eq!(rows_of(&document), vec!["ab", "cd"]);
        assert_eq!(document.row(1).unwrap().len(), 2);
    }
    document.insert(&Position { x: 1, y: 0 }, '\n');
    assert_eq!(rows_of(&document), vec!["a", "b", "cd"]);
    document.delete(&Position { x: 1, y: 0 });
    assert_eq!(rows_of(&document), vec!["ab", "cd"]);
}

#[test]
fn a_combining_mark_joins_the_cluster_before_it() {
    let mut row = Row::from("e");
    row.insert(1, '\u{301}');
    assert_eq!(text_of(&row), "e\u{301}");
    assert_eq!(row.len(), 1);
    row.delete(1);
    assert_eq!(text_of(&row), "e\u{301}");
    row.delete(0);
    assert!(row.is_empty());
    assert_eq!(text_of(&row), "");
}

#[test]
fn clusters_are_the_unit_of_every_index() {
    let mut row = Row::from("a\u{310}e\u{301}o\u{308}\u{332}");
    assert_eq!(row.len(), 3);
    row.insert(1, 'X');
    assert_eq!(text_of(&row), "a\u{310}Xe\u{301}o\u{308}\u{332}");
    assert_eq!(row.len(), 4);
    row.delete(2);
    assert_eq!(text_of(&row), "a\u{310}Xo\u{308}\u{332}");
    assert_eq!(row.render(2, 3), "o\u{308}\u{332}");
    let rest = row.split(1);
    assert_eq!(text_of(&row), "a\u{310}");
    assert_eq!(text_of(&rest), "Xo\u{308}\u{332}");
    assert_eq!(rest.len(), 2);
}

#[test]
fn split_at_the_ends_of_a_row() {
    let mut row = Row::from("abc");
    let rest = row.split(3);
    assert!(rest.is_empty());
    assert_eq!(rest.len(), 0);
    assert_eq!(text_of(&row), "abc");
    let rest = row.split(7);
    assert!(rest.is_empty());
    assert_eq!(text_of(&row), "abc");
    let rest = row.split(0);
    assert!(row.is_empty());
    assert_eq!(row.len(), 0);
    assert_eq!(text_of(&rest), "abc");
    assert_eq!(rest.len(), 3);
}

#[test]
fn row_insert_delete_append() {
    let mut row = Row::default();
    assert!(row.is_empty());
    row.insert(0, 'b');
    row.insert(0, 'a');
    row.insert(9, 'd');
    row.insert(2, 'c');
    assert_eq!(text_of(&row), "abcd");
    assert_eq!(row.len(), 4);
    row.delete(4);
    assert_eq!(text_of(&row), "abcd");
    row.delete(3);
    row.delete(0);
    assert_eq!(text_of(&row), "bc");
    row.append(&Row::from("xy"));
    assert_eq!(text_of(&row), "bcxy");
    assert_eq!(row.len(), 4);
    assert_eq!(text_of(&row.clone()), "bcxy");
}

#[test]
fn render_shows_a_range_of_clusters_and_blanks_for_tabs() {
    let row = Row::from("a\tbc");
    assert_eq!(row.render(0, 4), "a bc");
    assert_eq!(row.render(0, 100), "a bc");
    assert_eq!(row.render(1, 3), " b");
    assert_eq!(row.render(3, 1), "");
    assert_eq!(row.render(9, 12), "");
    assert_eq!(row.render(2, 2), "");
}

#[test]
fn documents_split_text_into_lines() {
    assert!(Document::new(String::new()).is_empty());
    assert_eq!(rows_of(&Document::new(String::from("ab\n"))), vec!["ab"]);
    assert_eq!(rows_of(&Document::new(String::from("\n"))), vec![""]);
    assert_eq!(rows_of(&Document::new(String::from("a\r\nb\n\nc"))), vec!["a", "b", "", "c"]);
    assert_eq!(rows_of(&Document::new(String::from("a\rb\r"))), vec!["a\rb\r"]);
    for text in ["", "ab\n", "\n", "a\r\nb\n\nc", "a\rb\r", "\r\n", "x\n\r\n", "\n\n"] {
        let expected: Vec<String> = text.lines().map(String::from).collect();
        assert_eq!(rows_of(&Document::new(String::from(text))), expected);
    }
}

#[test]
fn document_edits_out_of_range_do_nothing() {
    let mut document = Document::new(String::from("ab\ncd"));
    document.insert(&Position { x: 0, y: 3 }, 'X');
    document.delete(&Position { x: 0, y: 2 });
    document.insert_newline(&Position { x: 0, y: 3 });
    assert_eq!(rows_of(&document), vec!["ab", "cd"]);
    document.insert(&Position { x: 5, y: 2 }, 'X');
    assert_eq!(rows_of(&document), vec!["ab", "cd", "X"]);
    document.insert(&Position { x: 0, y: 3 }, '\n');
    assert_eq!(rows_of(&document), vec!["ab", "cd", "X", ""]);
    document.delete(&Position { x: 9, y: 0 });
    assert_eq!(rows_of(&document), vec!["ab", "cd", "X", ""]);
    document.delete(&Position { x: 2, y: 0 });
    assert_eq!(rows_of(&document), vec!["abcd", "X", ""]);
    assert!(document.row(3).is_none());
    assert_eq!(rows_of(&document.clone()), vec!["abcd", "X", ""]);
}

#[test]
fn left_at_the_start_stays() {
    let mut editor = Editor::new();
    editor.move_cursor(Key::Left, area());
    assert_eq!(*editor.cursor_position(), Position { x: 0, y: 0 });
    editor.set_content(String::from("ab\ncd"));
    editor.process_keypress(Key::Left, area()).unwrap();
    assert_eq!(*editor.cursor_position(), Position { x: 0, y: 0 });
    editor.process_keypress(Key::Backspace, area()).unwrap();
    assert_eq!(rows_of(editor.document()), vec!["ab", "cd"]);
}

#[test]
fn the_cursor_wraps_at_the_ends_of_rows() {
    let mut editor = Editor::new();
    editor.set_content(String::from("abc\nd"));
    for _ in 0..3 {
        editor.move_cursor(Key::Right, area());
    }
    assert_eq!(*editor.cursor_position(), Position { x: 3, y: 0 });
    editor.move_cursor(Key::Right, area());
    assert_eq!(*editor.cursor_position(), Position { x: 0, y: 1 });
    editor.move_cursor(Key::Left, area());
    assert_eq!(*editor.cursor_position(), Position { x: 3, y: 0 });
    editor.move_cursor(Key::Down, area());
    assert_eq!(*editor.cursor_position(), Position { x: 1, y: 1 });
    editor.move_cursor(Key::Down, area());
    assert_eq!(*editor.cursor_position(), Position { x: 0, y: 2 });
    editor.move_cursor(Key::Down, area());
    editor.move_cursor(Key::Right, area());
    assert_eq!(*editor.cursor_position(), Position { x: 0, y: 2 });
    editor.move_cursor(Key::Up, area());
    editor.move_cursor(Key::Up, area());
    editor.move_cursor(Key::Up, area());
    assert_eq!(*editor.cursor_position(), Position { x: 0, y: 0 });
    editor.move_cursor(Key::Enter, area());
    assert_eq!(*editor.cursor_position(), Position { x: 0, y: 0 });
}

#[test]
fn typing_and_deleting_through_the_editor() {
    let mut editor = Editor::new();
    for c in "hi\nyou".chars() {
        editor.process_keypress(Key::Char(c), area()).unwrap();
    }
    assert_eq!(rows_of(editor.document()), vec!["hi", "you"]);
    assert_eq!(*editor.cursor_position(), Position { x: 3, y: 1 });
    editor.process_keypress(Key::Backspace, area()).unwrap();
    assert_eq!(rows_of(editor.document()), vec!["hi", "yo"]);
    editor.process_keypress(Key::Left, area()).unwrap();
    editor.process_keypress(Key::Left, area()).unwrap();
    editor.process_keypress(Key::Backspace, area()).unwrap();
    assert_eq!(rows_of(editor.document()), vec!["hiyo"]);
    assert_eq!(*editor.cursor_position(), Position { x: 2, y: 0 });
    editor.process_keypress(Key::Delete, area()).unwrap();
    assert_eq!(rows_of(editor.document()), vec!["hio"]);
    editor.process_keypress(Key::ShiftEnter, area()).unwrap();
    assert_eq!(*editor.cursor_position(), Position { x: 0, y: 1 });
    editor.process_keypress(Key::Esc, area()).unwrap();
    editor.process_keypress(Key::Unknown, area()).unwrap();
    assert_eq!(rows_of(editor.document()), vec!["hio"]);
    let copy = editor.clone();
    assert_eq!(rows_of(copy.document()), vec!["hio"]);
    assert_eq!(*copy.cursor_position(), Position { x: 0, y: 1 });
}

#[test]
fn the_viewport_follows_the_cursor() {
    let small = Rect { x: 0, y: 0, width: 3, height: 2 };
    let mut editor = Editor::new();
    editor.set_content(String::from("abcdef\nb\nc\nd"));
    assert_eq!(*editor.offset(), Position { x: 0, y: 0 });
    for _ in 0..2 {
        editor.process_keypress(Key::Right, small).unwrap();
    }
    assert_eq!(*editor.offset(), Position { x: 0, y: 0 });
    editor.process_keypress(Key::Right, small).unwrap();
    assert_eq!(*editor.cursor_position(), Position { x: 3, y: 0 });
    assert_eq!(*editor.offset(), Position { x: 1, y: 0 });
    editor.process_keypress(Key::Right, small).unwrap();
    editor.process_keypress(Key::Right, small).unwrap();
    assert_eq!(*editor.offset(), Position { x: 3, y: 0 });
    for _ in 0..3 {
        editor.process_keypress(Key::Down, small).unwrap();
    }
    assert_eq!(*editor.cursor_position(), Position { x: 1, y: 3 });
    assert_eq!(*editor.offset(), Position { x: 1, y: 2 });
    editor.process_keypress(Key::Up, small).unwrap();
    editor.process_keypress(Key::Up, small).unwrap();
    assert_eq!(*editor.offset(), Position { x: 1, y: 1 });
    editor.set_content(String::from("x"));
    assert_eq!(*editor.offset(), Position { x: 1, y: 1 });
    editor.scroll(small);
    assert_eq!(*editor.offset(), Position { x: 0, y: 0 });
}

#[test]
fn rows_are_rendered_up_to_the_height_less_one() {
    let mut editor = Editor::new();
    editor.set_content(String::from("abcdef\nb\tb\nc\nd"));
    let small = Rect { x: 0, y: 0, width: 3, height: 3 };
    assert_eq!(editor.render_rows(small), vec!["abc", "b b"]);
    assert_eq!(editor.render_rows(area()), vec!["abcdef", "b b", "c", "d"]);
    let flat = Rect { x: 0, y: 0, width: 3, height: 0 };
    assert!(editor.render_rows(flat).is_empty());
    let one = Rect { x: 0, y: 0, width: 3, height: 1 };
    assert!(editor.render_rows(one).is_empty());
    assert_eq!(editor.render_row(&Row::from("a\tbcd"), small), "a b");
}

#[test]
fn texts_are_put_together_from_given_parts() {
    let parts = vec![String::from("ab"), String::from("\t"), String::new(), String::from("c\td")];
    assert_eq!(join_before(&parts, 0), "");
    assert_eq!(join_before(&parts, 2), "ab\t");
    assert_eq!(join_before(&parts, 9), "ab\tc\td");
    assert_eq!(join_from(&parts, 0), "ab\tc\td");
    assert_eq!(join_from(&parts, 3), "c\td");
    assert_eq!(join_from(&parts, 4), "");
    assert_eq!(join_from(&parts, usize::MAX), "");
    assert_eq!(join_with(&parts, 0, 'X'), "Xab\tc\td");
    assert_eq!(join_with(&parts, 1, 'X'), "abX\tc\td");
    assert_eq!(join_with(&parts, 4, 'X'), "ab\tc\tdX");
    assert_eq!(join_with(&parts, 5, 'X'), "ab\tc\tdX");
    assert_eq!(join_with(&vec![], 3, 'X'), "X");
    assert_eq!(join_without(&parts, 0), "\tc\td");
    assert_eq!(join_without(&parts, 3), "ab\t");
    assert_eq!(join_without(&parts, 4), "ab\tc\td");
    assert_eq!(join_without(&parts, usize::MAX), "ab\tc\td");
    assert_eq!(show_between(&parts, 0, 4), "ab c\td");
    assert_eq!(show_between(&parts, 1, 2), " ");
    assert_eq!(show_between(&parts, 3, 9), "c\td");
    assert_eq!(show_between(&parts, 2, 1), "");
    assert_eq!(show_between(&parts, 7, 9), "");
}
