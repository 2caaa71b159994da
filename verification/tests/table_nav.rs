//! Selection movement of the table state: clamping at both ends, empty
//! tables, absolute selection and resizing.

use budget_tui::table::TransactionsTableState;
use budget_tui::types::ScreenMode;

#[test]
fn next_row_clamps_to_last() {
    let mut t = TransactionsTableState::new(3);
    assert_eq!(t.selected(), (Some(0), None));
    for _ in 0..5 {
        t.next_row();
    }
    assert_eq!(t.selected().0, Some(2));
    assert_eq!(t.scroll(), 2);
}

#[test]
fn previous_row_clamps_to_first() {
    let mut t = TransactionsTableState::new(3);
    t.next_row();
    for _ in 0..7 {
        t.previous_row();
    }
    assert_eq!(t.selected().0, Some(0));
    assert_eq!(t.scroll(), 0);
}

#[test]
fn empty_table_has_no_row() {
    let mut t = TransactionsTableState::new(0);
    assert_eq!(t.selected(), (None, None));
    t.next_row();
    t.previous_row();
    assert_eq!(t.selected(), (None, None));
}

#[test]
fn row_moves_mix_stays_in_bounds() {
    let mut t = TransactionsTableState::new(4);
    let moves = [true, true, false, true, true, true, false, false, false, false, false];
    for down in moves {
        if down {
            t.next_row();
        } else {
            t.previous_row();
        }
        let row = t.selected().0.expect("a row stays selected");
        assert!(row < 4);
    }
}

#[test]
fn left_from_first_column_stays() {
    let mut t = TransactionsTableState::new(2);
    t.next_column();
    assert_eq!(t.selected().1, Some(0));
    t.previous_column();
    assert_eq!(t.selected().1, Some(0));
}

#[test]
fn right_clamps_to_last_column() {
    let mut t = TransactionsTableState::new(2);
    for _ in 0..9 {
        t.next_column();
    }
    assert_eq!(t.selected().1, Some(3));
}

#[test]
fn deselect_clears_column_keeps_row() {
    let mut t = TransactionsTableState::new(2);
    t.next_row();
    t.next_column();
    t.deselect();
    assert_eq!(t.selected(), (Some(1), None));
}

#[test]
fn select_clamps_into_bounds() {
    let mut t = TransactionsTableState::new(3);
    t.select(Some(10), Some(9));
    assert_eq!(t.selected(), (Some(2), Some(3)));
    t.select(None, None);
    assert_eq!(t.selected(), (None, None));
    let mut empty = TransactionsTableState::new(0);
    empty.select(Some(5), Some(1));
    assert_eq!(empty.selected(), (None, Some(1)));
}

#[test]
fn resize_clamps_selection() {
    let mut t = TransactionsTableState::new(5);
    for _ in 0..4 {
        t.next_row();
    }
    assert_eq!(t.selected().0, Some(4));
    t.resize(3);
    assert_eq!(t.selected().0, Some(2));
    t.resize(0);
    assert_eq!(t.selected().0, None);
    assert_eq!(t.mode(), ScreenMode::Browsing);
}

#[test]
fn start_editing_needs_full_cell() {
    let mut t = TransactionsTableState::new(2);
    t.start_editing();
    assert_eq!(t.mode(), ScreenMode::Browsing);
    t.next_column();
    t.start_editing();
    assert_eq!(t.mode(), ScreenMode::Editing);
}
