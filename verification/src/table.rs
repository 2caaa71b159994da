//! Selection and editing state of the transactions table: a 2-D cell
//! selection over `size` rows and a fixed set of columns, a scroll position
//! kept in step with the selected row, and the transition table between
//! browsing and editing.

use vstd::prelude::*;

use crate::editor::{edit_empty, edit_reset, edit_wf, spec_edit, EditBuffer, EditCmd, EditModel};
use crate::types::{NavEvent, ScreenMode, NUM_COLUMNS};

verus! {

/// Selection, scroll and edit state of the table.
#[derive(Debug)]
pub struct TransactionsTableState {
    mode: ScreenMode,
    row: Option<usize>,
    column: Option<usize>,
    scroll: usize,
    size: usize,
    input: EditBuffer,
}

/// Mathematical image of the table state.
pub ghost struct TableModel {
    pub mode: ScreenMode,
    pub row: Option<int>,
    pub col: Option<int>,
    pub scroll: int,
    pub size: int,
    pub input: EditModel,
}

impl View for TransactionsTableState {
    type V = TableModel;

    closed spec fn view(&self) -> TableModel {
        TableModel {
            mode: self.mode,
            row: match self.row {
                Some(i) => Some(i as int),
                None => None,
            },
            col: match self.column {
                Some(i) => Some(i as int),
                None => None,
            },
            scroll: self.scroll as int,
            size: self.size as int,
            input: self.input@,
        }
    }
}

/// The scroll position the selected row dictates.
pub open spec fn spec_scroll(row: Option<int>) -> int {
    match row {
        Some(r) => r,
        None => 0,
    }
}

/// The invariant of the table state: the selection stays inside the table,
/// editing happens only on a selected cell, the scroll position follows the
/// selected row, and the edit buffer is empty while browsing.
pub open spec fn table_wf(m: TableModel) -> bool {
    &&& 0 <= m.size
    &&& (m.row matches Some(r) ==> 0 <= r < m.size)
    &&& (m.size == 0 ==> m.row is None)
    &&& (m.col matches Some(c) ==> 0 <= c < NUM_COLUMNS)
    &&& (m.mode is Editing ==> m.row is Some && m.col is Some)
    &&& m.scroll == spec_scroll(m.row)
    &&& edit_wf(m.input)
    &&& (m.mode is Browsing ==> edit_empty(m.input))
}

/// A fresh table over `size` rows: browsing, first row selected when one
/// exists, no column selected.
pub open spec fn spec_new_table(size: int) -> TableModel {
    TableModel {
        mode: ScreenMode::Browsing,
        row: if size > 0 {
            Some(0)
        } else {
            None
        },
        col: None,
        scroll: 0,
        size: size,
        input: edit_reset(),
    }
}

/// Row selection moved one down, clamped to the last row; from no selection
/// it lands on the first row. Empty tables are left alone.
pub open spec fn spec_next_row(m: TableModel) -> TableModel {
    if m.size == 0 {
        m
    } else {
        let r = match m.row {
            Some(i) => if i + 1 < m.size {
                i + 1
            } else {
                m.size - 1
            },
            None => 0,
        };
        TableModel { row: Some(r), scroll: r, ..m }
    }
}

/// Row selection moved one up, clamped to the first row; from no selection
/// it lands on the first row. Empty tables are left alone.
pub open spec fn spec_previous_row(m: TableModel) -> TableModel {
    if m.size == 0 {
        m
    } else {
        let r = match m.row {
            Some(i) => if i > 0 {
                i - 1
            } else {
                0
            },
            None => 0,
        };
        TableModel { row: Some(r), scroll: r, ..m }
    }
}

/// Column selection moved one right, clamped to the last column.
pub open spec fn spec_next_column(m: TableModel) -> TableModel {
    let c = match m.col {
        Some(c) => if c + 1 < NUM_COLUMNS {
            c + 1
        } else {
            NUM_COLUMNS - 1
        },
        None => 0,
    };
    TableModel { col: Some(c), ..m }
}

/// Column selection moved one left, clamped to the first column.
pub open spec fn spec_previous_column(m: TableModel) -> TableModel {
    let c = match m.col {
        Some(c) => if c > 0 {
            c - 1
        } else {
            0
        },
        None => 0,
    };
    TableModel { col: Some(c), ..m }
}

/// A requested row selection clamped into a table of `size` rows.
pub open spec fn clamp_row(row: Option<int>, size: int) -> Option<int> {
    if size == 0 {
        None
    } else {
        match row {
            Some(r) => Some(
                if r < size {
                    r
                } else {
                    size - 1
                },
            ),
            None => None,
        }
    }
}

/// A requested column selection clamped into the fixed column range.
pub open spec fn clamp_col(col: Option<int>) -> Option<int> {
    match col {
        Some(c) => Some(
            if c < NUM_COLUMNS {
                c
            } else {
                NUM_COLUMNS - 1
            },
        ),
        None => None,
    }
}

/// Absolute selection, clamped into bounds, with the scroll position
/// re-synchronized.
pub open spec fn spec_select(m: TableModel, row: Option<int>, col: Option<int>) -> TableModel {
    let r = clamp_row(row, m.size);
    TableModel { row: r, col: clamp_col(col), scroll: spec_scroll(r), ..m }
}

/// Column selection cleared; the row keeps its focus.
pub open spec fn spec_deselect(m: TableModel) -> TableModel {
    TableModel { col: None, ..m }
}

/// The table told that the underlying list now has `n` rows: the selected
/// row is clamped into the new bounds. When the selection disappears with
/// the rows, any editing ends.
pub open spec fn spec_resize(m: TableModel, n: int) -> TableModel {
    let r = clamp_row(m.row, n);
    if r is None {
        TableModel {
            size: n,
            row: r,
            scroll: 0,
            mode: ScreenMode::Browsing,
            input: edit_reset(),
            ..m
        }
    } else {
        TableModel { size: n, row: r, scroll: spec_scroll(r), ..m }
    }
}

/// Editing begins when a full cell is selected; otherwise nothing happens.
pub open spec fn spec_start_editing(m: TableModel) -> TableModel {
    if m.row is Some && m.col is Some {
        TableModel { mode: ScreenMode::Editing, ..m }
    } else {
        m
    }
}

/// Editing ends and the buffer is discarded.
pub open spec fn spec_end_editing(m: TableModel) -> TableModel {
    TableModel { mode: ScreenMode::Browsing, input: edit_reset(), ..m }
}

/// What accepting an edit hands back: the edited cell and its final text,
/// present exactly while editing.
pub open spec fn accept_result(m: TableModel) -> Option<(int, int, Seq<char>)> {
    if m.mode is Editing {
        match (m.row, m.col) {
            (Some(r), Some(c)) => Some((r, c, m.input.text)),
            _ => None,
        }
    } else {
        None
    }
}

/// One raw editing command, heeded only while editing.
pub open spec fn spec_handle_input(m: TableModel, cmd: EditCmd) -> TableModel {
    if m.mode is Editing {
        TableModel { input: spec_edit(m.input, cmd), ..m }
    } else {
        m
    }
}

/// The transition table: browsing navigates, interacts and deselects;
/// editing heeds only cancel and interact, and suppresses navigation.
pub open spec fn spec_navigate(m: TableModel, e: NavEvent) -> TableModel {
    if m.mode is Browsing {
        match e {
            NavEvent::Left => spec_previous_column(m),
            NavEvent::Rigth => spec_next_column(m),
            NavEvent::Up => spec_previous_row(m),
            NavEvent::Down => spec_next_row(m),
            NavEvent::Cancel => spec_deselect(m),
            NavEvent::Interact => spec_start_editing(m),
        }
    } else {
        match e {
            NavEvent::Cancel => spec_end_editing(m),
            NavEvent::Interact => spec_end_editing(m),
            _ => m,
        }
    }
}

/// The committed cell text a navigation step yields: only an interact
/// while editing commits.
pub open spec fn navigate_commit(m: TableModel, e: NavEvent) -> Option<(int, int, Seq<char>)> {
    if m.mode is Editing && e is Interact {
        accept_result(m)
    } else {
        None
    }
}

/// One row move: a step down or a step up.
#[derive(Clone, Copy, Debug, PartialEq, Eq, Structural)]
pub enum RowMove {
    Next,
    Previous,
}

/// The table after a sequence of row moves, applied left to right.
pub open spec fn apply_row_moves(m: TableModel, ops: Seq<RowMove>) -> TableModel
    decreases ops.len(),
{
    if ops.len() == 0 {
        m
    } else {
        let prev = apply_row_moves(m, ops.drop_last());
        match ops.last() {
            RowMove::Next => spec_next_row(prev),
            RowMove::Previous => spec_previous_row(prev),
        }
    }
}

/// For any row count and any sequence of row moves, the selected row stays
/// within the table: it is an index below the row count whenever the table
/// has rows, and absent exactly when the table is empty.
pub proof fn lemma_row_moves_stay_in_bounds(m: TableModel, ops: Seq<RowMove>)
    requires
        table_wf(m),
        m.row is Some <==> m.size > 0,
    ensures
        table_wf(apply_row_moves(m, ops)),
        apply_row_moves(m, ops).size == m.size,
        apply_row_moves(m, ops).row is Some <==> m.size > 0,
        apply_row_moves(m, ops).row matches Some(r) ==> 0 <= r < m.size,
    decreases ops.len(),
{
    if ops.len() > 0 {
        lemma_row_moves_stay_in_bounds(m, ops.drop_last());
        let prev = apply_row_moves(m, ops.drop_last());
        match ops.last() {
            RowMove::Next => {
                assert(apply_row_moves(m, ops) == spec_next_row(prev));
            },
            RowMove::Previous => {
                assert(apply_row_moves(m, ops) == spec_previous_row(prev));
            },
        }
    }
}

/// View of an optional index.
pub open spec fn opt_view(o: Option<usize>) -> Option<int> {
    match o {
        Some(i) => Some(i as int),
        None => None,
    }
}

impl TransactionsTableState {
    /// A fresh table over `size` rows.
    pub fn new(size: usize) -> (r: TransactionsTableState)
        ensures
            r@ == spec_new_table(size as int),
            table_wf(r@),
    {
        TransactionsTableState {
            mode: ScreenMode::Browsing,
            row: if size > 0 {
                Some(0)
            } else {
                None
            },
            column: None,
            scroll: 0,
            size: size,
            input: EditBuffer::new(),
        }
    }

    /// Moves the row selection one down, clamped to the last row.
    pub fn next_row(&mut self)
        requires
            table_wf(old(self)@),
        ensures
            final(self)@ == spec_next_row(old(self)@),
            table_wf(final(self)@),
    {
        if self.size == 0 {
            return ;
        }
        let i = match self.row {
            Some(i) => if i + 1 < self.size {
                i + 1
            } else {
                self.size - 1
            },
            None => 0,
        };
        self.row = Some(i);
        self.scroll = i;
    }

    /// Moves the row selection one up, clamped to the first row.
    pub fn previous_row(&mut self)
        requires
            table_wf(old(self)@),
        ensures
            final(self)@ == spec_previous_row(old(self)@),
            table_wf(final(self)@),
    {
        if self.size == 0 {
            return ;
        }
        let i = match self.row {
            Some(i) => if i > 0 {
                i - 1
            } else {
                0
            },
            None => 0,
        };
        self.row = Some(i);
        self.scroll = i;
    }

    /// Moves the column selection one right, clamped to the last column.
    pub fn next_column(&mut self)
        requires
            table_wf(old(self)@),
        ensures
            final(self)@ == spec_next_column(old(self)@),
            table_wf(final(self)@),
    {
        let c = match self.column {
            Some(c) => if c + 1 < NUM_COLUMNS {
                c + 1
            } else {
                NUM_COLUMNS - 1
            },
            None => 0,
        };
        self.column = Some(c);
    }

    /// Moves the column selection one left, clamped to the first column.
    /// In particular, from the first column it stays on the first column:
    /// column movement clamps, it does not wrap around.
    pub fn previous_column(&mut self)
        requires
            table_wf(old(self)@),
        ensures
            final(self)@ == spec_previous_column(old(self)@),
            table_wf(final(self)@),
            old(self)@.col == Some(0int) ==> final(self)@.col == Some(0int),
    {
        let c = match self.column {
            Some(c) => if c > 0 {
                c - 1
            } else {
                0
            },
            None => 0,
        };
        self.column = Some(c);
    }

    /// Absolute selection, clamped into bounds; used to restore a prior
    /// selection after the underlying list was reloaded.
    pub fn select(&mut self, row: Option<usize>, column: Option<usize>)
        requires
            table_wf(old(self)@),
            old(self)@.mode is Browsing,
        ensures
            final(self)@ == spec_select(old(self)@, opt_view(row), opt_view(column)),
            table_wf(final(self)@),
    {
        let r = if self.size == 0 {
            None
        } else {
            match row {
                Some(r) => Some(
                    if r < self.size {
                        r
                    } else {
                        self.size - 1
                    },
                ),
                None => None,
            }
        };
        let c = match column {
            Some(c) => Some(
                if c < NUM_COLUMNS {
                    c
                } else {
                    NUM_COLUMNS - 1
                },
            ),
            None => None,
        };
        self.row = r;
        self.column = c;
        self.scroll = match r {
            Some(i) => i,
            None => 0,
        };
    }

    /// The selected row and column.
    pub fn selected(&self) -> (r: (Option<usize>, Option<usize>))
        ensures
            opt_view(r.0) == self@.row,
            opt_view(r.1) == self@.col,
    {
        (self.row, self.column)
    }

    /// Clears the column selection, keeping the row focus.
    pub fn deselect(&mut self)
        requires
            table_wf(old(self)@),
            old(self)@.mode is Browsing,
        ensures
            final(self)@ == spec_deselect(old(self)@),
            table_wf(final(self)@),
    {
        self.column = None;
    }

    /// Tells the table that the underlying list now has `new_count` rows.
    pub fn resize(&mut self, new_count: usize)
        requires
            table_wf(old(self)@),
        ensures
            final(self)@ == spec_resize(old(self)@, new_count as int),
            table_wf(final(self)@),
    {
        let r = if new_count == 0 {
            None
        } else {
            match self.row {
                Some(i) => Some(
                    if i < new_count {
                        i
                    } else {
                        new_count - 1
                    },
                ),
                None => None,
            }
        };
        self.size = new_count;
        self.row = r;
        self.scroll = match r {
            Some(i) => i,
            None => 0,
        };
        if r.is_none() {
            self.mode = ScreenMode::Browsing;
            self.input.reset();
        }
    }

    /// Begins editing when a full cell is selected.
    pub fn start_editing(&mut self)
        requires
            table_wf(old(self)@),
        ensures
            final(self)@ == spec_start_editing(old(self)@),
            table_wf(final(self)@),
    {
        if self.row.is_some() && self.column.is_some() {
            self.mode = ScreenMode::Editing;
        }
    }

    /// Ends editing, handing back the edited cell and its final text; the
    /// buffer resets. Outside of editing nothing is committed.
    pub fn accept_edit(&mut self) -> (r: Option<(usize, usize, String)>)
        requires
            table_wf(old(self)@),
        ensures
            final(self)@ == spec_navigate(old(self)@, NavEvent::Interact),
            table_wf(final(self)@),
            match (r, navigate_commit(old(self)@, NavEvent::Interact)) {
                (Some((row, col, text)), Some(c)) => (row as int, col as int, text@) == c,
                (None, None) => true,
                _ => false,
            },
    {
        match self.mode {
            ScreenMode::Editing => {
                let (row, col) = match (self.row, self.column) {
                    (Some(r), Some(c)) => (r, c),
                    _ => {
                        proof {
                            assert(false);
                        }
                        (0, 0)
                    },
                };
                let text = self.input.take_text();
                self.mode = ScreenMode::Browsing;
                Some((row, col, text))
            },
            ScreenMode::Browsing => {
                if self.row.is_some() && self.column.is_some() {
                    // Interact while browsing starts editing instead.
                    self.mode = ScreenMode::Editing;
                }
                None
            },
        }
    }

    /// Discards the edit and returns to browsing.
    pub fn cancel_edit(&mut self)
        requires
            table_wf(old(self)@),
        ensures
            final(self)@ == spec_end_editing(old(self)@),
            table_wf(final(self)@),
    {
        self.input.reset();
        self.mode = ScreenMode::Browsing;
    }

    /// One raw editing command, heeded only while editing.
    pub fn handle_input(&mut self, cmd: EditCmd)
        requires
            table_wf(old(self)@),
        ensures
            final(self)@ == spec_handle_input(old(self)@, cmd),
            table_wf(final(self)@),
    {
        match self.mode {
            ScreenMode::Editing => {
                self.input.apply(cmd);
            },
            ScreenMode::Browsing => {},
        }
    }

    /// One navigation event through the transition table; an interact that
    /// ends an edit hands back the edited cell and its final text.
    pub fn navigate(&mut self, e: NavEvent) -> (r: Option<(usize, usize, String)>)
        requires
            table_wf(old(self)@),
        ensures
            final(self)@ == spec_navigate(old(self)@, e),
            table_wf(final(self)@),
            match (r, navigate_commit(old(self)@, e)) {
                (Some((row, col, text)), Some(c)) => (row as int, col as int, text@) == c,
                (None, None) => true,
                _ => false,
            },
    {
        match self.mode {
            ScreenMode::Browsing => {
                match e {
                    NavEvent::Left => self.previous_column(),
                    NavEvent::Rigth => self.next_column(),
                    NavEvent::Up => self.previous_row(),
                    NavEvent::Down => self.next_row(),
                    NavEvent::Cancel => self.deselect(),
                    NavEvent::Interact => self.start_editing(),
                }
                None
            },
            ScreenMode::Editing => {
                match e {
                    NavEvent::Cancel => {
                        self.cancel_edit();
                        None
                    },
                    NavEvent::Interact => self.accept_edit(),
                    _ => None,
                }
            },
        }
    }

    /// The interaction mode the table is in.
    pub fn mode(&self) -> (r: ScreenMode)
        ensures
            r == self@.mode,
    {
        self.mode
    }

    /// The number of rows the table believes it has.
    pub fn size(&self) -> (r: usize)
        ensures
            r as int == self@.size,
    {
        self.size
    }

    /// The scroll position, kept in step with the selected row.
    pub fn scroll(&self) -> (r: usize)
        ensures
            r as int == self@.scroll,
    {
        self.scroll
    }

    /// The edit buffer, for rendering the cell under edit.
    pub fn input(&self) -> (r: &EditBuffer)
        ensures
            r@ == self@.input,
    {
        &self.input
    }
}

} // verus!
