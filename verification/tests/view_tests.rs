use hecto::command::{Command, Direction, EditCommand};
use hecto::position::Size;
use hecto::view::View;

fn size(width: usize, height: usize) -> Size {
    Size { width, height }
}

#[test]
fn empty_buffer_renders_welcome_banner() {
    // Viewport 80x24: the banner sits on row 24 / 3 = 8, every other
    // row shows a single tilde, and the caret is at the origin.
    let mut v = View::new(size(80, 24), 0);
    let rows = v.render().expect("a first render is pending");
    assert_eq!(rows.len(), 24);
    let msg = "hecto editor";
    let excess = 80 - 1 - msg.len();
    let left = excess / 2;
    let right = excess - left;
    let banner = format!("~{}{}{}", " ".repeat(left), msg, " ".repeat(right));
    for (r, row) in rows.iter().enumerate() {
        if r == 8 {
            assert_eq!(row, &banner);
        } else {
            assert_eq!(row, "~");
        }
    }
    let caret = v.get_caret_position();
    assert_eq!((caret.col, caret.row), (0, 0));
}

#[test]
fn render_is_gated_by_dirty_flag() {
    let mut v = View::new(size(10, 5), 0);
    assert!(v.render().is_some());
    assert!(v.render().is_none());
    v.handle_command(Command::Edit(EditCommand::Insert('x')));
    assert!(v.render().is_some());
}

#[test]
fn insert_at_line_end_advances_caret() {
    // One line of five half-width grapheme clusters; inserting at
    // cluster 5 appends, and the caret lands on render column 6.
    let mut v = View::new(size(80, 24), 0);
    v.load("f.txt", "héllo");
    v.handle_command(Command::Move(Direction::End));
    v.handle_command(Command::Edit(EditCommand::Insert('!')));
    assert_eq!(v.save_content(), "héllo!\n");
    let caret = v.get_caret_position();
    assert_eq!((caret.col, caret.row), (6, 0));
}

#[test]
fn backspace_at_line_start_merges_lines() {
    let mut v = View::new(size(80, 24), 0);
    v.load("f.txt", "abc\ndef");
    v.handle_command(Command::Move(Direction::Down));
    v.handle_command(Command::Move(Direction::Home));
    v.handle_command(Command::Edit(EditCommand::Backspace));
    assert_eq!(v.save_content(), "abcdef\n");
    let caret = v.get_caret_position();
    assert_eq!((caret.col, caret.row), (3, 0));
}

#[test]
fn line_break_mid_line_splits() {
    let mut v = View::new(size(80, 24), 0);
    v.load("f.txt", "line one");
    for _ in 0..4 {
        v.handle_command(Command::Move(Direction::Right));
    }
    v.handle_command(Command::Edit(EditCommand::Enter));
    assert_eq!(v.save_content(), "line\n one\n");
    let caret = v.get_caret_position();
    assert_eq!((caret.col, caret.row), (0, 1));
}

#[test]
fn backspace_at_origin_is_noop() {
    let mut v = View::new(size(80, 24), 0);
    v.load("f.txt", "abc");
    v.handle_command(Command::Edit(EditCommand::Backspace));
    assert_eq!(v.save_content(), "abc\n");
}

#[test]
fn backspace_mid_line_deletes_before_caret() {
    let mut v = View::new(size(80, 24), 0);
    v.load("f.txt", "abc");
    v.handle_command(Command::Move(Direction::End));
    v.handle_command(Command::Edit(EditCommand::Backspace));
    assert_eq!(v.save_content(), "ab\n");
    let caret = v.get_caret_position();
    assert_eq!((caret.col, caret.row), (2, 0));
}

#[test]
fn delete_at_line_end_merges_with_next() {
    let mut v = View::new(size(80, 24), 0);
    v.load("f.txt", "ab\ncd");
    v.handle_command(Command::Move(Direction::End));
    v.handle_command(Command::Edit(EditCommand::Delete));
    assert_eq!(v.save_content(), "abcd\n");
}

#[test]
fn delete_at_document_end_is_noop() {
    let mut v = View::new(size(80, 24), 0);
    v.load("f.txt", "ab");
    v.handle_command(Command::Move(Direction::End));
    v.handle_command(Command::Edit(EditCommand::Delete));
    assert_eq!(v.save_content(), "ab\n");
}

#[test]
fn left_at_column_zero_does_not_wrap() {
    let mut v = View::new(size(80, 24), 0);
    v.load("f.txt", "abc\ndef");
    v.handle_command(Command::Move(Direction::Down));
    v.handle_command(Command::Move(Direction::Left));
    let caret = v.get_caret_position();
    assert_eq!((caret.col, caret.row), (0, 1));
}

#[test]
fn caret_clamps_to_shorter_line() {
    let mut v = View::new(size(80, 24), 0);
    v.load("f.txt", "abcdef\nxy");
    v.handle_command(Command::Move(Direction::End));
    v.handle_command(Command::Move(Direction::Down));
    let caret = v.get_caret_position();
    assert_eq!((caret.col, caret.row), (2, 1));
}

#[test]
fn down_clamps_to_last_line() {
    let mut v = View::new(size(80, 24), 0);
    v.load("f.txt", "a\nb");
    for _ in 0..10 {
        v.handle_command(Command::Move(Direction::Down));
    }
    let caret = v.get_caret_position();
    assert_eq!(caret.row, 1);
}

#[test]
fn typing_past_window_scrolls_minimally() {
    let mut v = View::new(size(5, 3), 0);
    v.load("f.txt", "");
    for c in "abcdefghij".chars() {
        v.handle_command(Command::Edit(EditCommand::Insert(c)));
    }
    // The caret sits on column 10 of the document; the window of 5
    // columns scrolled just enough to keep it on the last cell.
    let caret = v.get_caret_position();
    assert_eq!((caret.col, caret.row), (4, 0));
    v.handle_command(Command::Move(Direction::Home));
    let caret = v.get_caret_position();
    assert_eq!((caret.col, caret.row), (0, 0));
}

#[test]
fn render_shows_scrolled_slice() {
    let mut v = View::new(size(4, 2), 0);
    v.load("f.txt", "abcdefgh");
    v.handle_command(Command::Move(Direction::End));
    let rows = v.render().expect("render pending after scroll");
    // Caret after 'h' is on column 8; the window [5, 9) shows the
    // tail of the line.
    assert_eq!(rows[0], "fgh");
    assert_eq!(rows[1], "~");
}

#[test]
fn resize_reclamps_scroll() {
    let mut v = View::new(size(4, 2), 0);
    v.load("f.txt", "abcdefgh");
    v.handle_command(Command::Move(Direction::End));
    v.handle_command(Command::Resize(size(20, 5)));
    let caret = v.get_caret_position();
    // The wider window no longer needs a horizontal scroll backward;
    // the offset stays where it was, minimally.
    assert_eq!(caret.row, 0);
    let rows = v.render().expect("resize asks for a redraw");
    assert_eq!(rows.len(), 5);
}

#[test]
fn page_moves_jump_within_viewport() {
    let mut v = View::new(size(80, 5), 0);
    let content = "x\n".repeat(20);
    v.load("f.txt", &content);
    v.handle_command(Command::Move(Direction::PageDown));
    // PageDown targets the viewport's bottom row: line height - 1.
    assert_eq!(v.get_caret_position().row, 4);
    v.handle_command(Command::Move(Direction::PageUp));
    assert_eq!(v.get_caret_position().row, 0);
}

#[test]
fn moving_down_past_window_scrolls_one_row() {
    let mut v = View::new(size(10, 3), 0);
    v.load("f.txt", "a\nb\nc\nd\ne\n");
    for _ in 0..3 {
        v.handle_command(Command::Move(Direction::Down));
    }
    // The caret is on document line 3; a window of three rows
    // scrolled forward just enough, to rows [1, 4).
    let caret = v.get_caret_position();
    assert_eq!(caret.row, 2);
    let rows = v.render().expect("scrolling asks for a redraw");
    assert_eq!(rows[0], "b");
    assert_eq!(rows[1], "c");
    assert_eq!(rows[2], "d");
}

#[test]
fn narrow_viewport_welcome_is_tilde() {
    let mut v = View::new(size(5, 6), 0);
    let rows = v.render().expect("first render pending");
    // Five columns cannot hold the banner text: its row shows just
    // the tilde.
    assert_eq!(rows[2], "~");
}

#[test]
fn document_status_reports_state() {
    let mut v = View::new(size(80, 24), 0);
    v.load("f.txt", "a\nb\n");
    let st = v.get_current_document_status();
    assert_eq!(st.num_lines, 2);
    assert_eq!(st.current_caret_line, 0);
    assert_eq!(st.file_name, "f.txt");
    assert!(!st.is_modified);
    v.handle_command(Command::Edit(EditCommand::Insert('x')));
    let st = v.get_current_document_status();
    assert!(st.is_modified);
}

#[test]
fn file_path_reflects_load() {
    let mut v = View::new(size(80, 24), 0);
    assert!(v.file_path().is_none());
    v.load("notes.txt", "x");
    assert_eq!(v.file_path().as_deref(), Some("notes.txt"));
}

#[test]
fn mark_saved_clears_modified_flag() {
    let mut v = View::new(size(80, 24), 0);
    v.load("f.txt", "a");
    v.handle_command(Command::Edit(EditCommand::Insert('b')));
    assert!(v.get_current_document_status().is_modified);
    v.mark_saved();
    assert!(!v.get_current_document_status().is_modified);
}
