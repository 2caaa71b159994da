//! The closed set of screens the application can stack, dispatched as a
//! tagged union: the account table, and the notifications popup.

use vstd::prelude::*;

use crate::account::{
    account_event_effect, account_event_events, account_event_model, account_nav_effect,
    account_nav_events, account_nav_model, account_sync_model, account_wf, AccountModel,
    AccountScreen,
};
use crate::notifications::{notif_key_event, notif_nav_event, NotificationsScreen};
use crate::types::{
    events_view, opt_effect_view, trn_wf, AppEvent, Effect, EffectModel, EventModel, KeyPress,
    NavEvent, Transaction, TransactionModel,
};

verus! {

/// The kinds of screens the application can stack.
#[derive(Clone, Copy, Debug, PartialEq, Eq, Structural)]
pub enum ScreenEnum {
    Account,
    Notifications,
}

/// One screen of the stack.
#[derive(Debug)]
pub enum Screen {
    Account(AccountScreen),
    Notifications(NotificationsScreen),
}

/// Mathematical image of a screen.
pub ghost enum ScreenModel {
    Account(AccountModel),
    Notifications(Seq<Seq<char>>),
}

impl View for Screen {
    type V = ScreenModel;

    open spec fn view(&self) -> ScreenModel {
        match self {
            Screen::Account(a) => ScreenModel::Account(a@),
            Screen::Notifications(n) => ScreenModel::Notifications(n@),
        }
    }
}

/// The invariant a screen keeps.
pub open spec fn screen_wf(m: ScreenModel) -> bool {
    match m {
        ScreenModel::Account(a) => account_wf(a),
        ScreenModel::Notifications(_) => true,
    }
}

/// The kind tag a screen carries.
pub open spec fn screen_kind(m: ScreenModel) -> ScreenEnum {
    match m {
        ScreenModel::Account(_) => ScreenEnum::Account,
        ScreenModel::Notifications(_) => ScreenEnum::Notifications,
    }
}

/// A screen after one navigation event: the account screen steps; the
/// popup never changes.
pub open spec fn screen_nav_model(m: ScreenModel, e: NavEvent) -> ScreenModel {
    match m {
        ScreenModel::Account(a) => ScreenModel::Account(account_nav_model(a, e)),
        ScreenModel::Notifications(n) => ScreenModel::Notifications(n),
    }
}

/// The events one navigation event produces on a screen.
pub open spec fn screen_nav_events(m: ScreenModel, e: NavEvent) -> Seq<EventModel> {
    match m {
        ScreenModel::Account(a) => account_nav_events(a, e),
        ScreenModel::Notifications(_) => match notif_nav_event(e) {
            Some(ev) => seq![ev],
            None => Seq::empty(),
        },
    }
}

/// The storage command one navigation event produces on a screen.
pub open spec fn screen_nav_effect(m: ScreenModel, e: NavEvent) -> Option<EffectModel> {
    match m {
        ScreenModel::Account(a) => account_nav_effect(a, e),
        ScreenModel::Notifications(_) => None,
    }
}

/// A screen after one raw key.
pub open spec fn screen_event_model(m: ScreenModel, k: KeyPress) -> ScreenModel {
    match m {
        ScreenModel::Account(a) => ScreenModel::Account(account_event_model(a, k)),
        ScreenModel::Notifications(n) => ScreenModel::Notifications(n),
    }
}

/// The events one raw key produces on a screen.
pub open spec fn screen_event_events(m: ScreenModel, k: KeyPress) -> Seq<EventModel> {
    match m {
        ScreenModel::Account(a) => account_event_events(a, k),
        ScreenModel::Notifications(_) => match notif_key_event(k) {
            Some(ev) => seq![ev],
            None => Seq::empty(),
        },
    }
}

/// The storage command one raw key produces on a screen.
pub open spec fn screen_event_effect(m: ScreenModel, k: KeyPress) -> Option<EffectModel> {
    match m {
        ScreenModel::Account(a) => account_event_effect(a, k),
        ScreenModel::Notifications(_) => None,
    }
}

/// A screen after a reload from storage: only the account screen holds
/// listed data.
pub open spec fn screen_sync_model(m: ScreenModel, items: Seq<TransactionModel>) -> ScreenModel {
    match m {
        ScreenModel::Account(a) => ScreenModel::Account(account_sync_model(a, items)),
        ScreenModel::Notifications(n) => ScreenModel::Notifications(n),
    }
}

impl Screen {
    /// The kind tag of this screen.
    pub fn kind(&self) -> (r: ScreenEnum)
        ensures
            r == screen_kind(self@),
    {
        match self {
            Screen::Account(_) => ScreenEnum::Account,
            Screen::Notifications(_) => ScreenEnum::Notifications,
        }
    }

    /// Routes one navigation event to this screen.
    pub fn handle_nav(&mut self, e: NavEvent) -> (r: (Vec<AppEvent>, Option<Effect>))
        requires
            screen_wf(old(self)@),
        ensures
            screen_wf(final(self)@),
            final(self)@ == screen_nav_model(old(self)@, e),
            events_view(r.0@) == screen_nav_events(old(self)@, e),
            opt_effect_view(r.1) == screen_nav_effect(old(self)@, e),
    {
        match self {
            Screen::Account(a) => a.handle_nav(e),
            Screen::Notifications(n) => {
                let mut evs: Vec<AppEvent> = Vec::new();
                match n.handle_nav(e) {
                    Some(ev) => {
                        let ghost evm = ev@;
                        evs.push(ev);
                        proof {
                            assert(events_view(evs@) =~= seq![evm]);
                        }
                    },
                    None => {
                        proof {
                            assert(events_view(evs@) =~= Seq::<EventModel>::empty());
                        }
                    },
                }
                (evs, None)
            },
        }
    }

    /// Routes one raw key to this screen.
    pub fn handle_event(&mut self, k: KeyPress) -> (r: (Vec<AppEvent>, Option<Effect>))
        requires
            screen_wf(old(self)@),
        ensures
            screen_wf(final(self)@),
            final(self)@ == screen_event_model(old(self)@, k),
            events_view(r.0@) == screen_event_events(old(self)@, k),
            opt_effect_view(r.1) == screen_event_effect(old(self)@, k),
    {
        match self {
            Screen::Account(a) => a.handle_event(k),
            Screen::Notifications(n) => {
                let mut evs: Vec<AppEvent> = Vec::new();
                match n.handle_event(k) {
                    Some(ev) => {
                        let ghost evm = ev@;
                        evs.push(ev);
                        proof {
                            assert(events_view(evs@) =~= seq![evm]);
                        }
                    },
                    None => {
                        proof {
                            assert(events_view(evs@) =~= Seq::<EventModel>::empty());
                        }
                    },
                }
                (evs, None)
            },
        }
    }

    /// Hands a screen the freshly listed transactions.
    pub fn sync(&mut self, items: Vec<Transaction>)
        requires
            screen_wf(old(self)@),
            forall|i: int| 0 <= i < items@.len() ==> trn_wf(#[trigger] items@[i]@),
        ensures
            screen_wf(final(self)@),
            final(self)@ == screen_sync_model(old(self)@, crate::types::items_view(items@)),
    {
        match self {
            Screen::Account(a) => a.sync(items),
            Screen::Notifications(_) => {},
        }
    }
}

} // verus!
