use hecto::editor::Editor;
use hecto::messagebar::MessageBar;
use hecto::position::{Position, Size};
use hecto::status::DocumentStatus;
use hecto::statusbar::StatusBar;

fn size(width: usize, height: usize) -> Size {
    Size { width, height }
}

#[test]
fn decimal_formatting() {
    let st = DocumentStatus {
        num_lines: 0,
        current_caret_line: 0,
        file_name: String::new(),
        is_modified: false,
    };
    assert_eq!(st.num_lines_to_string(), "0");
    let st = DocumentStatus { num_lines: 407, current_caret_line: 12, ..st };
    assert_eq!(st.num_lines_to_string(), "407");
    assert_eq!(st.caret_position_to_string(), "12/407");
}

#[test]
fn modified_marker() {
    let st = DocumentStatus {
        num_lines: 1,
        current_caret_line: 0,
        file_name: String::new(),
        is_modified: true,
    };
    assert_eq!(st.is_modified_to_string(), "(modified)");
    let st = DocumentStatus { is_modified: false, ..st };
    assert_eq!(st.is_modified_to_string(), "");
}

#[test]
fn status_bar_formats_line() {
    let mut bar = StatusBar::new(1, size(30, 10));
    bar.update_document_status(DocumentStatus {
        num_lines: 2,
        current_caret_line: 1,
        file_name: "f.txt".to_string(),
        is_modified: true,
    });
    let (row, text) = bar.render(size(30, 10)).expect("bar renders once");
    assert_eq!(row, 8);
    // "f.txt - 2 (modified)" is 20 columns; "1/2" is right-aligned
    // into the remaining 10.
    assert_eq!(text, "f.txt - 2 (modified)       1/2");
}

#[test]
fn status_bar_blank_when_too_narrow() {
    let mut bar = StatusBar::new(1, size(10, 10));
    bar.update_document_status(DocumentStatus {
        num_lines: 2,
        current_caret_line: 1,
        file_name: "long-name.txt".to_string(),
        is_modified: false,
    });
    let (_, text) = bar.render(size(10, 10)).expect("bar renders once");
    assert_eq!(text, "");
}

#[test]
fn status_bar_redraws_only_on_change() {
    let mut bar = StatusBar::new(1, size(30, 10));
    let st = DocumentStatus {
        num_lines: 1,
        current_caret_line: 0,
        file_name: "f".to_string(),
        is_modified: false,
    };
    bar.update_document_status(st);
    assert!(bar.render(size(30, 10)).is_some());
    let same = DocumentStatus {
        num_lines: 1,
        current_caret_line: 0,
        file_name: "f".to_string(),
        is_modified: false,
    };
    bar.update_document_status(same);
    assert!(bar.render(size(30, 10)).is_none());
}

#[test]
fn status_bar_hidden_when_terminal_too_short() {
    let mut bar = StatusBar::new(1, size(30, 1));
    assert!(bar.render(size(30, 1)).is_none());
}

#[test]
fn message_bar_shows_and_expires() {
    let mut bar = MessageBar::new();
    bar.update_msg("HELP: Ctrl-S = save | Ctrl-Q = quit", 1000);
    let (row, text) = bar.render(1000, size(80, 24)).expect("fresh message renders");
    assert_eq!(row, 23);
    assert_eq!(text, "HELP: Ctrl-S = save | Ctrl-Q = quit");
    // Within five seconds nothing changed: no redraw.
    assert!(bar.render(3000, size(80, 24)).is_none());
    // After five seconds the message expires and the row clears once.
    let (_, text) = bar.render(6001, size(80, 24)).expect("expiry clears the row");
    assert_eq!(text, "");
    assert!(bar.render(7000, size(80, 24)).is_none());
}

#[test]
fn editor_title_changes_once() {
    let mut e = Editor::new(size(80, 24));
    let title = e.refresh_status().expect("first refresh sets the title");
    assert_eq!(title, "No Name - hecto");
    assert!(e.refresh_status().is_none());
    e.view.load("f.txt", "hello\n");
    let title = e.refresh_status().expect("loading a file changes the title");
    assert_eq!(title, "f.txt - hecto");
}

#[test]
fn editor_status_follows_view() {
    let mut e = Editor::new(size(80, 24));
    e.view.load("f.txt", "a\nb\nc\n");
    e.refresh_status();
    assert_eq!(e.status_bar.current_status.num_lines, 3);
    assert_eq!(e.status_bar.current_status.file_name, "f.txt");
}

#[test]
fn position_subtract_saturates() {
    let a = Position { col: 5, row: 2 };
    let b = Position { col: 3, row: 7 };
    let d = a.subtract(b);
    assert_eq!((d.col, d.row), (2, 0));
}
