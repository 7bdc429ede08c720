use modal_editor::buffer::Buffer;
use modal_editor::command::{Action, Event, Key, Mode};
use modal_editor::editor::TextEditor;

fn line(s: &str) -> Vec<char> {
    s.chars().collect()
}

fn buffer_of(lines: &[&str]) -> Buffer {
    Buffer::new("test".to_string(), lines.iter().map(|l| line(l)).collect())
}

fn editor_of(lines: &[&str], rows: u16) -> TextEditor {
    TextEditor::new(buffer_of(lines), (80, rows))
}

fn contents(e: &TextEditor) -> Vec<String> {
    (0..e.buffer.line_count())
        .map(|i| e.buffer.get(i).unwrap().into_iter().collect())
        .collect()
}

fn key(c: char) -> Event {
    Event::Key(Key::Char(c))
}

#[test]
fn delete_char_then_undo_restores_line() {
    let mut e = editor_of(&["abc", "def"], 24);
    assert!(e.apply(Action::DeleteChar));
    assert_eq!(contents(&e), vec!["bc", "def"]);
    assert_eq!(e.undo.len(), 1);
    assert!(matches!(e.undo[0], Action::InsertChar(0, 0, 'a')));
    assert!(e.apply(Action::Undo));
    assert_eq!(contents(&e), vec!["abc", "def"]);
    assert!(e.undo.is_empty());
}

#[test]
fn chord_twice_deletes_line_and_undo_restores() {
    let mut e = editor_of(&["a", "b", "c"], 24);
    assert!(e.step(key('d')));
    assert_eq!(e.command_wait, Some('d'));
    assert_eq!(contents(&e), vec!["a", "b", "c"]);
    assert!(e.step(key('d')));
    assert_eq!(e.command_wait, None);
    assert_eq!(contents(&e), vec!["b", "c"]);
    assert_eq!(e.undo.len(), 1);
    match &e.undo[0] {
        Action::InsertLine(i, content) => {
            assert_eq!(*i, 0);
            assert_eq!(*content, line("a"));
        }
        other => panic!("unexpected undo entry {:?}", other),
    }
    assert!(e.step(key('u')));
    assert_eq!(contents(&e), vec!["a", "b", "c"]);
    assert!(e.undo.is_empty());
}

#[test]
fn insert_line_below_in_empty_buffer() {
    let mut e = editor_of(&[], 24);
    assert!(e.apply(Action::InsertLineBelow));
    assert_eq!(contents(&e), vec![""]);
    assert_eq!((e.cx, e.cy, e.sv), (0, 0, 0));
}

#[test]
fn insert_line_below_moves_cursor_down() {
    let mut e = editor_of(&["a", "b"], 24);
    e.cx = 1;
    assert!(e.apply(Action::InsertLineBelow));
    assert_eq!(contents(&e), vec!["a", "", "b"]);
    assert_eq!((e.cx, e.cy, e.sv), (0, 1, 0));
}

#[test]
fn insert_line_above_keeps_row() {
    let mut e = editor_of(&["a", "b"], 24);
    e.cy = 1;
    assert!(e.apply(Action::InsertLineAbove));
    assert_eq!(contents(&e), vec!["a", "", "b"]);
    assert_eq!((e.cx, e.cy, e.sv), (0, 1, 0));
    assert!(e.undo.is_empty());
}

#[test]
fn chord_interrupted_by_other_key_deletes_nothing() {
    let mut e = editor_of(&["a", "b", "c"], 24);
    assert!(e.step(key('d')));
    assert!(e.step(Event::Key(Key::Left)));
    assert_eq!(e.command_wait, None);
    assert!(e.step(key('d')));
    assert_eq!(contents(&e), vec!["a", "b", "c"]);
    assert_eq!(e.command_wait, Some('d'));
    assert!(e.undo.is_empty());
}

#[test]
fn undo_on_empty_stack_is_noop() {
    let mut e = editor_of(&["abc"], 24);
    e.cx = 2;
    assert!(e.apply(Action::Undo));
    assert_eq!(contents(&e), vec!["abc"]);
    assert_eq!((e.cx, e.cy, e.sv), (2, 0, 0));
    assert!(e.undo.is_empty());
}

#[test]
fn move_up_on_top_row_scrolls_or_stays() {
    let mut e = editor_of(&["a", "b", "c"], 24);
    e.sv = 2;
    e.move_up();
    assert_eq!((e.cy, e.sv), (0, 1));
    e.move_up();
    assert_eq!((e.cy, e.sv), (0, 0));
    e.move_up();
    assert_eq!((e.cy, e.sv), (0, 0));
    e.cy = 2;
    e.move_up();
    assert_eq!((e.cy, e.sv), (1, 0));
}

#[test]
fn move_down_scrolls_above_status_row() {
    let mut e = editor_of(&["1", "2", "3", "4", "5"], 4);
    e.move_down();
    assert_eq!((e.cy, e.sv), (1, 0));
    e.move_down();
    assert_eq!((e.cy, e.sv), (2, 0));
    e.move_down();
    assert_eq!((e.cy, e.sv), (2, 1));
    e.move_down();
    assert_eq!((e.cy, e.sv), (2, 2));
    e.move_down();
    assert_eq!((e.cy, e.sv), (2, 2));
}

#[test]
fn clamp_after_line_deletion() {
    let mut e = editor_of(&["abcdef", "xy"], 24);
    e.cy = 1;
    e.cx = 2;
    e.delete_line();
    assert_eq!(contents(&e), vec!["abcdef"]);
    e.bounds();
    assert_eq!((e.cx, e.cy, e.sv), (2, 0, 0));
    e.cx = 50;
    e.bounds();
    assert_eq!(e.cx, 6);
}

#[test]
fn clamp_row_when_view_is_past_end() {
    let mut e = editor_of(&["a", "b"], 24);
    e.sv = 5;
    e.cy = 3;
    e.clamp_row();
    assert_eq!((e.cy, e.sv), (0, 1));
    let mut empty = editor_of(&[], 24);
    empty.cy = 4;
    empty.bounds();
    assert_eq!((empty.cx, empty.cy, empty.sv), (0, 0, 0));
}

#[test]
fn clamp_column_to_line_length() {
    let mut e = editor_of(&["abc"], 24);
    e.cx = 9;
    e.clamp_column();
    assert_eq!(e.cx, 3);
    e.cx = 1;
    e.clamp_column();
    assert_eq!(e.cx, 1);
}

#[test]
fn paging_and_line_ends() {
    let mut e = editor_of(&["hello", "x"], 10);
    e.page_down();
    assert_eq!(e.cy, 8);
    e.page_up();
    assert_eq!(e.cy, 0);
    e.move_end();
    assert_eq!(e.cx, 5);
    e.move_home();
    assert_eq!(e.cx, 0);
    e.move_left();
    assert_eq!(e.cx, 0);
    e.move_right();
    assert_eq!(e.cx, 1);
}

#[test]
fn insert_mode_typing() {
    let mut e = editor_of(&["ac"], 24);
    assert!(e.step(key('i')));
    assert_eq!(e.mode, Mode::Insert);
    e.cx = 1;
    assert!(e.step(key('b')));
    assert_eq!(contents(&e), vec!["abc"]);
    assert_eq!(e.cx, 2);
    assert!(e.step(key('q')));
    assert_eq!(contents(&e), vec!["abqc"]);
    assert!(e.step(Event::Key(Key::Esc)));
    assert_eq!(e.mode, Mode::Normal);
    assert!(!e.step(key('q')));
}

#[test]
fn typing_into_empty_buffer_appends_line() {
    let mut e = editor_of(&[], 24);
    e.mode = Mode::Insert;
    assert!(e.step(key('z')));
    assert_eq!(contents(&e), vec!["z"]);
    assert_eq!(e.cx, 1);
}

#[test]
fn resize_updates_size_in_any_mode() {
    let mut e = editor_of(&["a"], 24);
    assert!(e.step(Event::Resize(100, 40)));
    assert_eq!(e.size, (100, 40));
    e.mode = Mode::Insert;
    assert!(e.step(Event::Resize(50, 10)));
    assert_eq!(e.size, (50, 10));
    assert_eq!(contents(&e), vec!["a"]);
}

#[test]
fn normal_keys_resolve_to_actions() {
    let mut e = editor_of(&["a"], 24);
    assert!(matches!(e.handle_event(key('x')), Some(Action::DeleteChar)));
    assert!(matches!(e.handle_event(key('u')), Some(Action::Undo)));
    assert!(matches!(e.handle_event(key('o')), Some(Action::InsertLineBelow)));
    assert!(matches!(e.handle_event(key('O')), Some(Action::InsertLineAbove)));
    assert!(matches!(e.handle_event(key('0')), Some(Action::MoveHome)));
    assert!(matches!(e.handle_event(key('$')), Some(Action::MoveEnd)));
    assert!(matches!(e.handle_event(key('b')), Some(Action::PageUp)));
    assert!(matches!(e.handle_event(key('f')), Some(Action::PageDown)));
    assert!(matches!(e.handle_event(Event::Key(Key::Up)), Some(Action::MoveUp)));
    assert!(matches!(e.handle_event(key('z')), None));
    assert!(matches!(e.handle_event(Event::Other), None));
}

#[test]
fn delete_char_on_empty_line_records_nothing() {
    let mut e = editor_of(&["", "a"], 24);
    e.delete_char();
    assert_eq!(contents(&e), vec!["", "a"]);
    assert!(e.undo.is_empty());
}

#[test]
fn two_undos_undo_two_deletions() {
    let mut e = editor_of(&["abc"], 24);
    e.delete_char();
    e.delete_char();
    assert_eq!(contents(&e), vec!["c"]);
    e.undo();
    assert_eq!(contents(&e), vec!["bc"]);
    e.undo();
    assert_eq!(contents(&e), vec!["abc"]);
}

#[test]
fn visible_lines_follow_scroll() {
    let mut e = editor_of(&["1", "2", "3"], 4);
    e.sv = 1;
    let rows = e.visible_lines();
    assert_eq!(rows, vec![line("2"), line("3"), line("")]);
    assert_eq!(e.cursor_line(), Some(1));
}
