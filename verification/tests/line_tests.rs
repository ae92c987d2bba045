use hecto::line::{GraphemeWidth, Line};

#[test]
fn round_trip_plain() {
    let l = Line::from("hello world");
    assert_eq!(l.line_to_string(), "hello world");
}

#[test]
fn round_trip_empty() {
    let l = Line::from("");
    assert_eq!(l.line_to_string(), "");
    assert_eq!(l.graphemes_len(), 0);
}

#[test]
fn round_trip_emoji() {
    let l = Line::from("a😀b");
    assert_eq!(l.line_to_string(), "a😀b");
    assert_eq!(l.graphemes_len(), 3);
}

#[test]
fn round_trip_combining_marks() {
    let l = Line::from("a\u{310}e\u{301}o\u{308}\u{332}");
    assert_eq!(l.line_to_string(), "a\u{310}e\u{301}o\u{308}\u{332}");
    assert_eq!(l.graphemes_len(), 3);
}

#[test]
fn round_trip_tabs_and_controls() {
    let l = Line::from("a\tb\u{7}c");
    assert_eq!(l.line_to_string(), "a\tb\u{7}c");
}

#[test]
fn grapheme_count_hello_with_accent() {
    let l = Line::from("héllo");
    assert_eq!(l.graphemes_len(), 5);
}

#[test]
fn prefix_width_counts_columns() {
    // 'a' is one column, a CJK character two, 'b' one.
    let l = Line::from("a你b");
    assert_eq!(l.get_previous_width(0), 0);
    assert_eq!(l.get_previous_width(1), 1);
    assert_eq!(l.get_previous_width(2), 3);
    assert_eq!(l.get_previous_width(3), 4);
    // past the end the width no longer grows
    assert_eq!(l.get_previous_width(10), 4);
}

#[test]
fn prefix_width_monotone_on_sample() {
    let l = Line::from("ab\tc你");
    let mut prev = 0;
    for i in 0..=l.graphemes_len() {
        let w = l.get_previous_width(i);
        assert!(w >= prev);
        prev = w;
    }
}

#[test]
fn insert_then_delete_restores() {
    let mut l = Line::from("abc");
    l.insert('x', 1);
    assert_eq!(l.line_to_string(), "axbc");
    l.delete(1);
    assert_eq!(l.line_to_string(), "abc");
}

#[test]
fn insert_at_end_appends() {
    let mut l = Line::from("héllo");
    l.insert('!', 5);
    assert_eq!(l.line_to_string(), "héllo!");
    assert_eq!(l.graphemes_len(), 6);
    assert_eq!(l.get_previous_width(6), 6);
}

#[test]
fn insert_past_end_appends() {
    let mut l = Line::from("ab");
    l.insert('c', 99);
    assert_eq!(l.line_to_string(), "abc");
}

#[test]
fn delete_out_of_range_is_noop() {
    let mut l = Line::from("ab");
    l.delete(5);
    assert_eq!(l.line_to_string(), "ab");
}

#[test]
fn split_then_append_reconstructs() {
    let mut l = Line::from("line one");
    let rest = l.split(4);
    assert_eq!(l.line_to_string(), "line");
    assert_eq!(rest.line_to_string(), " one");
    l.append(&rest);
    assert_eq!(l.line_to_string(), "line one");
}

#[test]
fn split_past_end_leaves_line() {
    let mut l = Line::from("abc");
    let rest = l.split(7);
    assert_eq!(l.line_to_string(), "abc");
    assert_eq!(rest.line_to_string(), "");
}

#[test]
fn visible_slice_plain() {
    let l = Line::from("abcdef");
    assert_eq!(l.get_visible_graphemes(0..6), "abcdef");
    assert_eq!(l.get_visible_graphemes(2..4), "cd");
}

#[test]
fn visible_slice_empty_range() {
    let l = Line::from("abc");
    assert_eq!(l.get_visible_graphemes(2..2), "");
    assert_eq!(l.get_visible_graphemes(3..1), "");
}

#[test]
fn visible_slice_truncates_wide_chars() {
    // Each CJK character is two columns; a window cutting through one
    // shows a truncation marker instead of half a glyph.
    let l = Line::from("你好");
    assert_eq!(l.get_visible_graphemes(0..4), "你好");
    assert_eq!(l.get_visible_graphemes(1..3), "⋯⋯");
    assert_eq!(l.get_visible_graphemes(0..3), "你⋯");
}

#[test]
fn tab_renders_as_space() {
    let l = Line::from("\t");
    assert_eq!(l.get_visible_graphemes(0..2), " ");
}

#[test]
fn space_is_kept_verbatim() {
    let l = Line::from(" a");
    assert_eq!(l.get_visible_graphemes(0..2), " a");
}

#[test]
fn nonbreaking_space_gets_blank_marker() {
    let l = Line::from("\u{a0}");
    assert_eq!(l.get_visible_graphemes(0..2), "␣");
}

#[test]
fn control_char_has_single_column() {
    // Under this width table a C0 control occupies one column, so it
    // is kept verbatim rather than replaced by the zero-width control
    // marker.
    let l = Line::from("\u{7}");
    assert_eq!(l.get_previous_width(1), 1);
    assert_eq!(l.get_visible_graphemes(0..2), "\u{7}");
}

#[test]
fn zero_width_char_gets_dot_marker() {
    let l = Line::from("\u{200b}");
    assert_eq!(l.get_visible_graphemes(0..2), "·");
}

#[test]
fn saturating_add_counts_width() {
    assert_eq!(GraphemeWidth::Half.saturating_add(3), 4);
    assert_eq!(GraphemeWidth::Full.saturating_add(3), 5);
    assert_eq!(GraphemeWidth::Full.saturating_add(usize::MAX - 1), usize::MAX);
}
