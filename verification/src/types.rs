//! The plain data the dashboard works on: interaction modes, navigation and
//! key events, calendar dates, transactions, and the commands the state
//! machine hands to the storage shell.

use vstd::prelude::*;

verus! {

/// Number of table columns: date, category, description, amount.
pub const NUM_COLUMNS: usize = 4;

/// Interaction mode of the transactions table: moving the cell selection,
/// or editing the text of the selected cell in place.
#[derive(Clone, Copy, Debug, PartialEq, Eq, Structural)]
pub enum ScreenMode {
    Browsing,
    Editing,
}

/// Navigation commands, as screens understand key presses.
#[derive(Clone, Copy, Debug, PartialEq, Eq, Structural)]
pub enum NavEvent {
    Left,
    Rigth,
    Up,
    Down,
    Cancel,
    Interact,
}

/// Events a screen sends back to the application: a line for the
/// notification log, or a request to close the screen.
#[derive(Clone, Debug)]
pub enum AppEvent {
    Notifiction(String),
    ExitScreen,
}

/// A key, as the state machine understands it; the shell translates raw
/// terminal events into this form.
#[derive(Clone, Copy, Debug, PartialEq, Eq, Structural)]
pub enum Key {
    Char(char),
    Up,
    Down,
    Left,
    Right,
    Enter,
    Esc,
    Backspace,
    Delete,
    Home,
    End,
    Other,
}

/// One key press, with its control-modifier flag.
#[derive(Clone, Copy, Debug, PartialEq, Eq, Structural)]
pub struct KeyPress {
    pub key: Key,
    pub ctrl: bool,
}

/// A calendar date, held as plain numbers so the logic that formats and
/// parses it can be verified.
#[derive(Clone, Copy, Debug, PartialEq, Eq, Structural)]
pub struct Date {
    pub year: u16,
    pub month: u8,
    pub day: u8,
}

/// The date bounds every transaction in the model keeps: a four-digit year
/// and month and day numbers in their calendar ranges.
pub open spec fn date_wf(d: Date) -> bool {
    &&& d.year <= 9999
    &&& 1 <= d.month <= 12
    &&& 1 <= d.day <= 31
}

/// One financial transaction. The identifier is absent until the storage
/// collaborator has persisted the record.
#[derive(Debug, PartialEq)]
pub struct Transaction {
    pub transaction_id: Option<isize>,
    pub credit_acc_id: Option<u8>,
    pub debit_acc_id: Option<u8>,
    pub timestamp: Date,
    pub category: Option<String>,
    pub amount: i64,
    pub description: Option<String>,
}

/// Mathematical image of a transaction: integers and character sequences.
pub ghost struct TransactionModel {
    pub transaction_id: Option<int>,
    pub credit_acc_id: Option<int>,
    pub debit_acc_id: Option<int>,
    pub timestamp: Date,
    pub category: Option<Seq<char>>,
    pub amount: int,
    pub description: Option<Seq<char>>,
}

impl View for Transaction {
    type V = TransactionModel;

    open spec fn view(&self) -> TransactionModel {
        TransactionModel {
            transaction_id: match self.transaction_id {
                Some(i) => Some(i as int),
                None => None,
            },
            credit_acc_id: match self.credit_acc_id {
                Some(i) => Some(i as int),
                None => None,
            },
            debit_acc_id: match self.debit_acc_id {
                Some(i) => Some(i as int),
                None => None,
            },
            timestamp: self.timestamp,
            category: match self.category {
                Some(s) => Some(s@),
                None => None,
            },
            amount: self.amount as int,
            description: match self.description {
                Some(s) => Some(s@),
                None => None,
            },
        }
    }
}

/// What the model asks of every transaction it holds.
pub open spec fn trn_wf(t: TransactionModel) -> bool {
    date_wf(t.timestamp)
}

impl Transaction {
    /// Field-by-field copy. The contracts must know that the copy equals the
    /// original, which a derived `Clone` would not say.
    pub fn duplicate(&self) -> (r: Transaction)
        ensures
            r == *self,
    {
        Transaction {
            transaction_id: self.transaction_id,
            credit_acc_id: self.credit_acc_id,
            debit_acc_id: self.debit_acc_id,
            timestamp: self.timestamp,
            category: match &self.category {
                Some(s) => Some(s.clone()),
                None => None,
            },
            amount: self.amount,
            description: match &self.description {
                Some(s) => Some(s.clone()),
                None => None,
            },
        }
    }
}

/// Mathematical image of an application event.
pub ghost enum EventModel {
    Note(Seq<char>),
    Exit,
}

impl View for AppEvent {
    type V = EventModel;

    open spec fn view(&self) -> EventModel {
        match self {
            AppEvent::Notifiction(s) => EventModel::Note(s@),
            AppEvent::ExitScreen => EventModel::Exit,
        }
    }
}

/// The models of a sequence of events.
pub open spec fn events_view(evs: Seq<AppEvent>) -> Seq<EventModel> {
    evs.map_values(|e: AppEvent| e@)
}

/// The models of a sequence of transactions.
pub open spec fn items_view(s: Seq<Transaction>) -> Seq<TransactionModel> {
    s.map_values(|t: Transaction| t@)
}

/// A storage command the state machine emits; the shell runs it against the
/// real store and reports failures back as notifications.
#[derive(Debug)]
pub enum Effect {
    /// Persist one transaction: insert when its identifier is absent,
    /// update when present.
    Put(Transaction),
    /// Remove the transaction with this identifier.
    Delete(isize),
    /// Persist a batch of transactions.
    PutMany(Vec<Transaction>),
    /// Reload the active screen from storage.
    Sync,
}

/// Mathematical image of a storage command.
pub ghost enum EffectModel {
    Put(TransactionModel),
    Delete(int),
    PutMany(Seq<TransactionModel>),
    Sync,
}

impl View for Effect {
    type V = EffectModel;

    open spec fn view(&self) -> EffectModel {
        match self {
            Effect::Put(t) => EffectModel::Put(t@),
            Effect::Delete(id) => EffectModel::Delete(*id as int),
            Effect::PutMany(v) => EffectModel::PutMany(items_view(v@)),
            Effect::Sync => EffectModel::Sync,
        }
    }
}

/// The models of a sequence of storage commands.
pub open spec fn effects_view(effs: Seq<Effect>) -> Seq<EffectModel> {
    effs.map_values(|e: Effect| e@)
}

/// The model of an optional storage command.
pub open spec fn opt_effect_view(e: Option<Effect>) -> Option<EffectModel> {
    match e {
        Some(x) => Some(x@),
        None => None,
    }
}

/// The one failure the in-memory store can hit on its own: it has run out
/// of fresh identifiers.
#[derive(Clone, Copy, Debug, PartialEq, Eq, Structural)]
pub enum StorageError {
    IdsExhausted,
}

} // verus!
