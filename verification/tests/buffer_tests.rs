use hecto::buffer::Buffer;

fn texts(b: &Buffer) -> Vec<String> {
    let mut out = Vec::new();
    for l in &b.lines {
        out.push(l.line_to_string());
    }
    out
}

#[test]
fn load_splits_on_newlines() {
    let b = Buffer::load("f.txt", "abc\ndef\n");
    assert_eq!(texts(&b), vec!["abc".to_string(), "def".to_string()]);
    assert!(!b.is_modified);
}

#[test]
fn load_empty_source_gives_empty_buffer() {
    let b = Buffer::load("f.txt", "");
    assert_eq!(b.get_size(), 0);
    assert!(b.is_empty());
}

#[test]
fn load_handles_crlf() {
    let b = Buffer::load("f.txt", "a\r\nb");
    assert_eq!(texts(&b), vec!["a".to_string(), "b".to_string()]);
}

#[test]
fn load_without_trailing_newline() {
    let b = Buffer::load("f.txt", "a\nb");
    assert_eq!(texts(&b), vec!["a".to_string(), "b".to_string()]);
}

#[test]
fn load_single_newline_is_one_empty_line() {
    let b = Buffer::load("f.txt", "\n");
    assert_eq!(texts(&b), vec!["".to_string()]);
}

#[test]
fn save_content_joins_with_newlines() {
    let b = Buffer::load("f.txt", "abc\ndef\n");
    assert_eq!(b.save_content(), "abc\ndef\n");
}

#[test]
fn load_save_round_trip() {
    let content = "one\ntwo\nthree\n";
    let b = Buffer::load("f.txt", content);
    assert_eq!(b.save_content(), content);
}

#[test]
fn mark_saved_clears_modified() {
    let mut b = Buffer::load("f.txt", "x\n");
    b.insert_in_line(0, 'y', 0);
    assert!(b.is_modified);
    b.mark_saved();
    assert!(!b.is_modified);
}

#[test]
fn insert_creates_row_just_past_end() {
    let mut b = Buffer::default();
    b.insert_in_line(0, 'x', 0);
    assert_eq!(texts(&b), vec!["x".to_string()]);
    assert!(b.is_modified);
}

#[test]
fn insert_far_past_end_is_noop() {
    let mut b = Buffer::load("f.txt", "a\n");
    b.insert_in_line(5, 'x', 0);
    assert_eq!(texts(&b), vec!["a".to_string()]);
}

#[test]
fn get_line_length_counts_graphemes() {
    let b = Buffer::load("f.txt", "héllo\n");
    assert_eq!(b.get_line_length(0), 5);
    assert_eq!(b.get_line_length(1), 0);
}

#[test]
fn enter_at_line_start_inserts_empty_row_before() {
    let mut b = Buffer::load("f.txt", "abc\n");
    b.enter(0, 0);
    assert_eq!(texts(&b), vec!["".to_string(), "abc".to_string()]);
    assert!(b.is_modified);
}

#[test]
fn enter_mid_line_splits() {
    let mut b = Buffer::load("f.txt", "line one\n");
    b.enter(0, 4);
    assert_eq!(texts(&b), vec!["line".to_string(), " one".to_string()]);
}

#[test]
fn enter_at_line_end_appends_empty_row() {
    let mut b = Buffer::load("f.txt", "abc\n");
    b.enter(0, 3);
    assert_eq!(texts(&b), vec!["abc".to_string(), "".to_string()]);
}

#[test]
fn delete_removes_grapheme() {
    let mut b = Buffer::load("f.txt", "abc\n");
    b.delete(0, 1);
    assert_eq!(texts(&b), vec!["ac".to_string()]);
}

#[test]
fn delete_on_missing_row_is_noop() {
    let mut b = Buffer::load("f.txt", "abc\n");
    b.delete(3, 0);
    assert_eq!(texts(&b), vec!["abc".to_string()]);
    assert!(!b.is_modified);
}

#[test]
fn merge_joins_adjacent_rows() {
    let mut b = Buffer::load("f.txt", "abc\ndef\n");
    b.merge(0, 1);
    assert_eq!(texts(&b), vec!["abcdef".to_string()]);
    assert!(b.is_modified);
}

#[test]
fn insert_new_line_shifts_rows() {
    let mut b = Buffer::load("f.txt", "a\nb\n");
    b.insert_new_line(1);
    assert_eq!(texts(&b), vec!["a".to_string(), "".to_string(), "b".to_string()]);
}
