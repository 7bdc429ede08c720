use modal_editor::buffer::Buffer;

fn line(s: &str) -> Vec<char> {
    s.chars().collect()
}

fn buffer_of(lines: &[&str]) -> Buffer {
    Buffer::new("notes.txt".to_string(), lines.iter().map(|l| line(l)).collect())
}

fn contents(b: &Buffer) -> Vec<String> {
    (0..b.line_count()).map(|i| b.get(i).unwrap().into_iter().collect()).collect()
}

#[test]
fn insert_then_remove_at_same_position_restores() {
    let mut b = buffer_of(&["hello", "world"]);
    b.insert(2, 1, 'X');
    assert_eq!(contents(&b), vec!["hello", "woXrld"]);
    b.remove(2, 1);
    assert_eq!(contents(&b), vec!["hello", "world"]);
}

#[test]
fn insert_one_past_end_appends_line() {
    let mut b = buffer_of(&["a"]);
    b.insert(0, 1, 'z');
    assert_eq!(contents(&b), vec!["a", "z"]);
}

#[test]
fn insert_past_gap_or_column_is_noop() {
    let mut b = buffer_of(&["a"]);
    b.insert(0, 3, 'z');
    b.insert(5, 0, 'z');
    b.insert(1, 1, 'z');
    assert_eq!(contents(&b), vec!["a"]);
}

#[test]
fn remove_out_of_range_is_noop() {
    let mut b = buffer_of(&["ab"]);
    b.remove(2, 0);
    b.remove(0, 1);
    assert_eq!(contents(&b), vec!["ab"]);
    b.remove(1, 0);
    assert_eq!(contents(&b), vec!["a"]);
}

#[test]
fn insert_and_remove_lines() {
    let mut b = buffer_of(&["a", "c"]);
    b.insert_line(1, line("b"));
    assert_eq!(contents(&b), vec!["a", "b", "c"]);
    b.insert_line(3, line("d"));
    assert_eq!(contents(&b), vec!["a", "b", "c", "d"]);
    b.insert_line(9, line("x"));
    assert_eq!(b.line_count(), 4);
    assert_eq!(b.remove_line(0), Some(line("a")));
    assert_eq!(b.remove_line(7), None);
    assert_eq!(contents(&b), vec!["b", "c", "d"]);
}

#[test]
fn get_and_lengths() {
    let b = buffer_of(&["abc", ""]);
    assert_eq!(b.get(0), Some(line("abc")));
    assert_eq!(b.get(2), None);
    assert_eq!(b.line_len(0), 3);
    assert_eq!(b.line_len(1), 0);
    assert_eq!(b.line_len(5), 0);
    assert_eq!(b.char_at(1, 0), Some('b'));
    assert_eq!(b.char_at(3, 0), None);
    assert_eq!(b.file(), "notes.txt");
}

fn split(text: &str) -> Vec<String> {
    let chars: Vec<char> = text.chars().collect();
    modal_editor::buffer::split_lines(&chars)
        .into_iter()
        .map(|l| l.into_iter().collect())
        .collect()
}

#[test]
fn split_lines_like_text_lines() {
    assert_eq!(split("a\nb"), vec!["a", "b"]);
    assert_eq!(split("a\r\nb\n"), vec!["a", "b"]);
    assert_eq!(split(""), Vec::<String>::new());
    assert_eq!(split("\n"), vec![""]);
    assert_eq!(split("a\n\nb"), vec!["a", "", "b"]);
    assert_eq!(split("x\r"), vec!["x\r"]);
    assert_eq!(split("\r\n\r\n"), vec!["", ""]);
}
