//! The account screen: the transaction list together with its table state.
//! Navigation and key events transform it; accepted edits are written back
//! into the list and handed out as storage commands; deletions remove the
//! row locally and hand out the matching storage command.

use vstd::prelude::*;
use vstd::pervasive::VecAdditionalExecFns;
use vstd::string::StringExecFns;

use crate::chars::{chars_to_string, string_to_chars};
use crate::digits::{dec_digits, fmt_u64};
use crate::editor::EditCmd;
use crate::fields::{cell_text_spec, write_back, write_back_model, write_back_ok};
use crate::table::{
    navigate_commit, spec_handle_input, spec_navigate, spec_new_table, spec_resize, spec_select,
    table_wf, TableModel, TransactionsTableState,
};
use crate::types::{
    events_view, items_view, opt_effect_view, trn_wf, AppEvent, Effect, EffectModel, EventModel,
    Key, KeyPress, NavEvent, ScreenMode, Transaction, TransactionModel,
};

verus! {

/// The account screen: the in-memory transaction list and the table state
/// over it.
#[derive(Debug)]
pub struct AccountScreen {
    items: Vec<Transaction>,
    table_state: TransactionsTableState,
}

/// Mathematical image of the account screen.
pub ghost struct AccountModel {
    pub items: Seq<TransactionModel>,
    pub table: TableModel,
}

impl View for AccountScreen {
    type V = AccountModel;

    closed spec fn view(&self) -> AccountModel {
        AccountModel { items: items_view(self.items@), table: self.table_state@ }
    }
}

/// The invariant of the account screen: the table's row count is the
/// length of the list, the table keeps its own invariant, and every held
/// transaction is well formed.
pub open spec fn account_wf(m: AccountModel) -> bool {
    &&& table_wf(m.table)
    &&& m.table.size == m.items.len()
    &&& forall|i: int| 0 <= i < m.items.len() ==> trn_wf(#[trigger] m.items[i])
}

/// The list after an accepted edit was written back: the commit's text
/// read into the edited cell's field, when it fits.
pub open spec fn accept_items(
    items: Seq<TransactionModel>,
    commit: Option<(int, int, Seq<char>)>,
) -> Seq<TransactionModel> {
    match commit {
        Some((row, col, text)) => {
            if 0 <= row < items.len() && write_back_ok(col, text) {
                items.update(row, write_back_model(items[row], col, text))
            } else {
                items
            }
        },
        None => items,
    }
}

/// The editing command a key press means, when it means one.
pub open spec fn key_to_edit(k: KeyPress) -> Option<EditCmd> {
    if k.ctrl {
        None
    } else {
        match k.key {
            Key::Char(c) => Some(EditCmd::Insert(c)),
            Key::Backspace => Some(EditCmd::Backspace),
            Key::Delete => Some(EditCmd::Delete),
            Key::Left => Some(EditCmd::Left),
            Key::Right => Some(EditCmd::Right),
            Key::Home => Some(EditCmd::Home),
            Key::End => Some(EditCmd::End),
            _ => None,
        }
    }
}

/// The editing command a key press means, as executable code.
pub fn key_to_edit_cmd(k: KeyPress) -> (r: Option<EditCmd>)
    ensures
        r == key_to_edit(k),
{
    if k.ctrl {
        return None;
    }
    match k.key {
        Key::Char(c) => Some(EditCmd::Insert(c)),
        Key::Backspace => Some(EditCmd::Backspace),
        Key::Delete => Some(EditCmd::Delete),
        Key::Left => Some(EditCmd::Left),
        Key::Right => Some(EditCmd::Right),
        Key::Home => Some(EditCmd::Home),
        Key::End => Some(EditCmd::End),
        _ => None,
    }
}

/// Does the key ask to leave the screen?
pub open spec fn is_exit_key(k: KeyPress) -> bool {
    k.key == Key::Char('q')
}

/// Does the key ask to delete the selected row?
pub open spec fn is_delete_key(k: KeyPress) -> bool {
    k.key == Key::Char('d') || k.key == Key::Char('D')
}

/// The screen after one navigation event: the table steps through its
/// transition table and an accepted edit is written back into the list.
pub open spec fn account_nav_model(a0: AccountModel, e: NavEvent) -> AccountModel {
    AccountModel {
        items: accept_items(a0.items, navigate_commit(a0.table, e)),
        table: spec_navigate(a0.table, e),
    }
}

/// The notifications a navigation event produces: one complaint when the
/// accepted text does not fit its field.
pub open spec fn account_nav_events(a0: AccountModel, e: NavEvent) -> Seq<EventModel> {
    match navigate_commit(a0.table, e) {
        Some((row, col, text)) => {
            if write_back_ok(col, text) {
                Seq::empty()
            } else {
                seq![EventModel::Note("Invalid value"@)]
            }
        },
        None => Seq::empty(),
    }
}

/// The storage command a navigation event produces: persist the edited
/// transaction when the accepted text fits its field.
pub open spec fn account_nav_effect(a0: AccountModel, e: NavEvent) -> Option<EffectModel> {
    match navigate_commit(a0.table, e) {
        Some((row, col, text)) => {
            if 0 <= row < a0.items.len() && write_back_ok(col, text) {
                Some(EffectModel::Put(write_back_model(a0.items[row], col, text)))
            } else {
                None
            }
        },
        None => None,
    }
}

/// The screen after deleting the selected row: the row leaves the list and
/// the table clamps its selection into the new bounds.
pub open spec fn account_delete_model(a0: AccountModel) -> AccountModel {
    match a0.table.row {
        Some(row) => AccountModel {
            items: a0.items.remove(row),
            table: spec_resize(a0.table, a0.items.len() - 1),
        },
        None => a0,
    }
}

/// The notification a deletion produces.
pub open spec fn account_delete_events(a0: AccountModel) -> Seq<EventModel> {
    match a0.table.row {
        Some(row) => seq![EventModel::Note("Deleting transaction "@ + dec_digits(row))],
        None => Seq::empty(),
    }
}

/// The storage command a deletion produces: remove the transaction by its
/// identifier, when it has been persisted at all.
pub open spec fn account_delete_effect(a0: AccountModel) -> Option<EffectModel> {
    match a0.table.row {
        Some(row) => {
            if 0 <= row < a0.items.len() {
                match a0.items[row].transaction_id {
                    Some(id) => Some(EffectModel::Delete(id)),
                    None => None,
                }
            } else {
                None
            }
        },
        None => None,
    }
}

/// The screen after one raw key: editing routes the key to the buffer;
/// browsing deletes on the delete key and otherwise leaves the screen
/// alone.
pub open spec fn account_event_model(a0: AccountModel, k: KeyPress) -> AccountModel {
    if a0.table.mode is Editing {
        match key_to_edit(k) {
            Some(cmd) => AccountModel { table: spec_handle_input(a0.table, cmd), ..a0 },
            None => a0,
        }
    } else if is_delete_key(k) {
        account_delete_model(a0)
    } else {
        a0
    }
}

/// The events one raw key produces: while browsing, the exit key asks to
/// close the screen and the delete key reports the deletion.
pub open spec fn account_event_events(a0: AccountModel, k: KeyPress) -> Seq<EventModel> {
    if a0.table.mode is Editing {
        Seq::empty()
    } else if is_exit_key(k) {
        seq![EventModel::Exit]
    } else if is_delete_key(k) {
        account_delete_events(a0)
    } else {
        Seq::empty()
    }
}

/// The storage command one raw key produces.
pub open spec fn account_event_effect(a0: AccountModel, k: KeyPress) -> Option<EffectModel> {
    if a0.table.mode is Editing {
        None
    } else if is_delete_key(k) {
        account_delete_effect(a0)
    } else {
        None
    }
}

/// A fresh, empty account screen model.
pub open spec fn account_fresh() -> AccountModel {
    AccountModel { items: Seq::empty(), table: spec_new_table(0) }
}

/// The screen after a reload: the freshly listed transactions, with the
/// prior selection clamped into the new bounds.
pub open spec fn account_sync_model(
    a0: AccountModel,
    items: Seq<TransactionModel>,
) -> AccountModel {
    AccountModel {
        items: items,
        table: spec_select(spec_new_table(items.len() as int), a0.table.row, a0.table.col),
    }
}

impl AccountScreen {
    /// An empty account screen; the first sync fills it.
    pub fn new() -> (r: AccountScreen)
        ensures
            r@ == account_fresh(),
            account_wf(r@),
    {
        let r = AccountScreen { items: Vec::new(), table_state: TransactionsTableState::new(0) };
        proof {
            assert(r@.items =~= Seq::<TransactionModel>::empty());
        }
        r
    }

    /// One navigation event. The table steps through its transition table;
    /// an interact that ends an edit writes the text back into the edited
    /// cell and asks for it to be persisted. Text that does not fit its
    /// field leaves the list unchanged and becomes a notification instead.
    pub fn handle_nav(&mut self, e: NavEvent) -> (r: (Vec<AppEvent>, Option<Effect>))
        requires
            account_wf(old(self)@),
        ensures
            account_wf(final(self)@),
            final(self)@ == account_nav_model(old(self)@, e),
            events_view(r.0@) == account_nav_events(old(self)@, e),
            opt_effect_view(r.1) == account_nav_effect(old(self)@, e),
    {
        let commit = self.table_state.navigate(e);
        match commit {
            Some((row, col, text)) => {
                let tchars = string_to_chars(text.as_str());
                match write_back(&self.items[row], col, &tchars) {
                    Some(t2) => {
                        let eff = Effect::Put(t2.duplicate());
                        let ghost t2m = t2@;
                        self.items.set(row, t2);
                        proof {
                            assert(items_view(self.items@) =~= old(self)@.items.update(
                                row as int,
                                t2m,
                            ));
                            assert(events_view(Seq::<AppEvent>::empty())
                                =~= Seq::<EventModel>::empty());
                        }
                        (Vec::new(), Some(eff))
                    },
                    None => {
                        let mut evs: Vec<AppEvent> = Vec::new();
                        evs.push(AppEvent::Notifiction(String::from_str("Invalid value")));
                        proof {
                            assert(events_view(evs@) =~= seq![EventModel::Note("Invalid value"@)]);
                        }
                        (evs, None)
                    },
                }
            },
            None => {
                proof {
                    assert(events_view(Seq::<AppEvent>::empty()) =~= Seq::<EventModel>::empty());
                }
                (Vec::new(), None)
            },
        }
    }

    /// One raw key. While a cell is being edited the key goes to the edit
    /// buffer. While browsing, `q` asks to leave the screen and `d`
    /// deletes the selected row; everything else is ignored.
    pub fn handle_event(&mut self, k: KeyPress) -> (r: (Vec<AppEvent>, Option<Effect>))
        requires
            account_wf(old(self)@),
        ensures
            account_wf(final(self)@),
            final(self)@ == account_event_model(old(self)@, k),
            events_view(r.0@) == account_event_events(old(self)@, k),
            opt_effect_view(r.1) == account_event_effect(old(self)@, k),
    {
        if matches!(self.table_state.mode(), ScreenMode::Editing) {
            match key_to_edit_cmd(k) {
                Some(cmd) => self.table_state.handle_input(cmd),
                None => (),
            }
            proof {
                assert(events_view(Seq::<AppEvent>::empty()) =~= Seq::<EventModel>::empty());
            }
            (Vec::new(), None)
        } else if matches!(k.key, Key::Char('q')) {
            let mut evs: Vec<AppEvent> = Vec::new();
            evs.push(AppEvent::ExitScreen);
            proof {
                assert(events_view(evs@) =~= seq![EventModel::Exit]);
            }
            (evs, None)
        } else if matches!(k.key, Key::Char('d')) || matches!(k.key, Key::Char('D')) {
            self.delete_selected_trns()
        } else {
            proof {
                assert(events_view(Seq::<AppEvent>::empty()) =~= Seq::<EventModel>::empty());
            }
            (Vec::new(), None)
        }
    }

    /// Removes the selected row from the list, tells the table about the
    /// new row count — so the selection clamps down onto the new last row
    /// when the old last row went away — and asks storage to delete the
    /// row's transaction when it has an identifier. Without a selected row
    /// nothing happens.
    pub fn delete_selected_trns(&mut self) -> (r: (Vec<AppEvent>, Option<Effect>))
        requires
            account_wf(old(self)@),
        ensures
            account_wf(final(self)@),
            final(self)@ == account_delete_model(old(self)@),
            events_view(r.0@) == account_delete_events(old(self)@),
            opt_effect_view(r.1) == account_delete_effect(old(self)@),
            // Deleting the selected last row of a table with more rows
            // re-selects the new last row, never nothing.
            (old(self)@.table.row == Some(old(self)@.items.len() - 1) && old(self)@.items.len()
                >= 2) ==> final(self)@.table.row == Some(old(self)@.items.len() - 2),
    {
        let (sel_row, _) = self.table_state.selected();
        match sel_row {
            Some(row) => {
                let eff = match self.items[row].transaction_id {
                    Some(id) => Some(Effect::Delete(id)),
                    None => None,
                };
                self.items.remove(row);
                proof {
                    assert(items_view(self.items@) =~= old(self)@.items.remove(row as int));
                }
                let n = self.items.len();
                self.table_state.resize(n);
                let mut msg = String::from_str("Deleting transaction ");
                let row_digits = fmt_u64(row as u64);
                msg.append(chars_to_string(&row_digits).as_str());
                let mut evs: Vec<AppEvent> = Vec::new();
                evs.push(AppEvent::Notifiction(msg));
                proof {
                    assert(events_view(evs@) =~= account_delete_events(old(self)@));
                }
                (evs, eff)
            },
            None => {
                proof {
                    assert(events_view(Seq::<AppEvent>::empty()) =~= Seq::<EventModel>::empty());
                }
                (Vec::new(), None)
            },
        }
    }

    /// Replaces the list with a freshly listed one and restores the prior
    /// selection, clamped into the new bounds.
    pub fn sync(&mut self, items: Vec<Transaction>)
        requires
            account_wf(old(self)@),
            forall|i: int| 0 <= i < items@.len() ==> trn_wf(#[trigger] items@[i]@),
        ensures
            account_wf(final(self)@),
            final(self)@ == account_sync_model(old(self)@, items_view(items@)),
    {
        let (sel_row, sel_col) = self.table_state.selected();
        let n = items.len();
        self.items = items;
        self.table_state = TransactionsTableState::new(n);
        self.table_state.select(sel_row, sel_col);
    }

    /// The transactions the screen holds, for rendering.
    pub fn items(&self) -> (r: &Vec<Transaction>)
        ensures
            items_view(r@) == self@.items,
    {
        &self.items
    }

    /// The table state, for rendering.
    pub fn table(&self) -> (r: &TransactionsTableState)
        ensures
            r@ == self@.table,
    {
        &self.table_state
    }
}

/// Starting an edit on the selected cell and cancelling it right away
/// leaves the list untouched, so every displayed cell text is what it was
/// before the edit began, and the selection stands where it stood.
pub proof fn lemma_cancel_restores_display(m: AccountModel)
    requires
        account_wf(m),
        m.table.mode is Browsing,
        m.table.row is Some,
        m.table.col is Some,
    ensures
        ({
            let m1 = account_nav_model(m, NavEvent::Interact);
            let m2 = account_nav_model(m1, NavEvent::Cancel);
            &&& m2.table.mode is Browsing
            &&& m2.table.row == m.table.row
            &&& m2.table.col == m.table.col
            &&& m2.items == m.items
            &&& forall|r: int, c: int|
                0 <= r < m.items.len() ==> cell_text_spec(m2.items[r], c) == cell_text_spec(
                    m.items[r],
                    c,
                )
        }),
{
}

} // verus!
