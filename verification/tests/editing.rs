//! The edit buffer: inserting, deleting and cursor movement, the visible
//! slice under a render width, and the commit path through the table.

use budget_tui::editor::{to_text_with_cursor, EditBuffer, EditCmd};
use budget_tui::table::TransactionsTableState;
use budget_tui::types::{NavEvent, ScreenMode};

fn type_text(b: &mut EditBuffer, text: &str) {
    for c in text.chars() {
        b.apply(EditCmd::Insert(c));
    }
}

#[test]
fn insert_and_move() {
    let mut b = EditBuffer::new();
    type_text(&mut b, "50.00");
    assert_eq!(b.text_string(), "50.00");
    assert_eq!(b.cursor(), 5);
    b.apply(EditCmd::Left);
    b.apply(EditCmd::Left);
    assert_eq!(b.cursor(), 3);
    b.apply(EditCmd::Insert('9'));
    assert_eq!(b.text_string(), "50.900");
    b.apply(EditCmd::Home);
    assert_eq!(b.cursor(), 0);
    b.apply(EditCmd::End);
    assert_eq!(b.cursor(), 6);
}

#[test]
fn backspace_and_delete() {
    let mut b = EditBuffer::new();
    type_text(&mut b, "abc");
    b.apply(EditCmd::Backspace);
    assert_eq!(b.text_string(), "ab");
    b.apply(EditCmd::Home);
    b.apply(EditCmd::Backspace);
    assert_eq!(b.text_string(), "ab");
    b.apply(EditCmd::Delete);
    assert_eq!(b.text_string(), "b");
    b.apply(EditCmd::End);
    b.apply(EditCmd::Delete);
    assert_eq!(b.text_string(), "b");
}

#[test]
fn take_text_resets() {
    let mut b = EditBuffer::new();
    type_text(&mut b, "note");
    assert_eq!(b.take_text(), "note");
    assert_eq!(b.text_string(), "");
    assert_eq!(b.cursor(), 0);
}

#[test]
fn visible_slice_fits_width() {
    let mut b = EditBuffer::new();
    type_text(&mut b, "hello");
    b.apply(EditCmd::Home);
    b.apply(EditCmd::Right);
    b.apply(EditCmd::Right);
    let (before, at, after) = to_text_with_cursor(&b, 10);
    assert_eq!((before.as_str(), at.as_str(), after.as_str()), ("he", "l", "lo"));
}

#[test]
fn visible_slice_scrolls_for_narrow_width() {
    let mut b = EditBuffer::new();
    type_text(&mut b, "hello");
    let (before, at, after) = to_text_with_cursor(&b, 3);
    assert_eq!((before.as_str(), at.as_str(), after.as_str()), ("lo", " ", ""));
    assert!(before.chars().count() < 3);
}

#[test]
fn cursor_past_end_renders_space() {
    let b = EditBuffer::new();
    let (before, at, after) = to_text_with_cursor(&b, 8);
    assert_eq!((before.as_str(), at.as_str(), after.as_str()), ("", " ", ""));
}

#[test]
fn navigation_is_suppressed_while_editing() {
    let mut t = TransactionsTableState::new(3);
    t.next_column();
    t.navigate(NavEvent::Interact);
    assert_eq!(t.mode(), ScreenMode::Editing);
    t.navigate(NavEvent::Down);
    t.navigate(NavEvent::Rigth);
    assert_eq!(t.selected(), (Some(0), Some(0)));
    assert_eq!(t.mode(), ScreenMode::Editing);
}

#[test]
fn cancel_discards_and_returns_to_browsing() {
    let mut t = TransactionsTableState::new(3);
    t.next_column();
    t.navigate(NavEvent::Interact);
    t.handle_input(EditCmd::Insert('x'));
    t.navigate(NavEvent::Cancel);
    assert_eq!(t.mode(), ScreenMode::Browsing);
    assert_eq!(t.input().text_string(), "");
    assert_eq!(t.selected(), (Some(0), Some(0)));
}

#[test]
fn accept_hands_back_cell_and_text() {
    let mut t = TransactionsTableState::new(3);
    t.next_row();
    t.next_column();
    t.next_column();
    t.navigate(NavEvent::Interact);
    t.handle_input(EditCmd::Insert('h'));
    t.handle_input(EditCmd::Insert('i'));
    let commit = t.navigate(NavEvent::Interact);
    assert_eq!(commit, Some((1, 1, String::from("hi"))));
    assert_eq!(t.mode(), ScreenMode::Browsing);
    assert_eq!(t.input().text_string(), "");
}
