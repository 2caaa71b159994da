//! The application controller: the screen stack, the notification log and
//! the run state, driven one key press at a time. The shell's loop hands
//! each key press in and performs the storage commands that come back;
//! everything decided here is verified.

use vstd::prelude::*;
use vstd::string::StringExecFns;

use crate::account::AccountScreen;
use crate::chars::{chars_to_string, clone_strings};
use crate::digits::{dec_digits, fmt_u64};
use crate::notifications::{notes_view, NotificationsScreen};
use crate::screens::{
    screen_event_effect, screen_event_events, screen_event_model, screen_kind, screen_nav_effect,
    screen_nav_events, screen_nav_model, screen_sync_model, screen_wf, Screen, ScreenEnum,
    ScreenModel,
};
use crate::table::spec_new_table;
use crate::types::{
    effects_view, events_view, items_view, trn_wf, AppEvent, Date, Effect, EffectModel,
    EventModel, Key, KeyPress, NavEvent, Transaction, TransactionModel,
};

verus! {

/// Whether the control loop keeps running.
#[derive(Clone, Copy, Debug, PartialEq, Eq, Structural)]
pub enum AppState {
    Running,
    Exited,
}

/// The application: run state, screen stack, frame counter and the
/// append-only notification log.
#[derive(Debug)]
pub struct App {
    state: AppState,
    screens: Vec<(ScreenEnum, Screen)>,
    frames_count: u32,
    notifications: Vec<String>,
}

/// Mathematical image of the application.
pub ghost struct AppModel {
    pub state: AppState,
    pub screens: Seq<(ScreenEnum, ScreenModel)>,
    pub notifications: Seq<Seq<char>>,
    pub frames: int,
}

/// The models of the stacked screens.
pub open spec fn screens_view(s: Seq<(ScreenEnum, Screen)>) -> Seq<(ScreenEnum, ScreenModel)> {
    s.map_values(|p: (ScreenEnum, Screen)| (p.0, p.1@))
}

impl View for App {
    type V = AppModel;

    closed spec fn view(&self) -> AppModel {
        AppModel {
            state: self.state,
            screens: screens_view(self.screens@),
            notifications: notes_view(self.notifications@),
            frames: self.frames_count as int,
        }
    }
}

/// The invariant of the application: every stacked screen keeps its own
/// invariant and carries the kind tag of its variant.
pub open spec fn app_wf(m: AppModel) -> bool {
    forall|i: int|
        0 <= i < m.screens.len() ==> screen_wf(#[trigger] m.screens[i].1) && m.screens[i].0
            == screen_kind(m.screens[i].1)
}

/// A fresh application: running, no screens, nothing logged.
pub open spec fn app_fresh() -> AppModel {
    AppModel {
        state: AppState::Running,
        screens: Seq::empty(),
        notifications: Seq::empty(),
        frames: 0,
    }
}

/// The immediate-quit combination.
pub open spec fn is_quit_key(k: KeyPress) -> bool {
    k.ctrl && (k.key == Key::Char('c') || k.key == Key::Char('C'))
}

/// The notifications-popup toggle.
pub open spec fn is_popup_key(k: KeyPress) -> bool {
    k.key == Key::Char('n') || k.key == Key::Char('N')
}

/// The debug key that bulk-inserts sample rows.
pub open spec fn is_gen_key(k: KeyPress) -> bool {
    k.key == Key::Char('g') || k.key == Key::Char('G')
}

/// The navigation meaning of a key press, when it has one.
pub open spec fn key_nav(k: KeyPress) -> Option<NavEvent> {
    match k.key {
        Key::Down => Some(NavEvent::Down),
        Key::Up => Some(NavEvent::Up),
        Key::Right => Some(NavEvent::Rigth),
        Key::Left => Some(NavEvent::Left),
        Key::Enter => Some(NavEvent::Interact),
        Key::Esc => Some(NavEvent::Cancel),
        Key::Char(c) => {
            if c == 'j' || c == 'J' {
                Some(NavEvent::Down)
            } else if c == 'k' || c == 'K' {
                Some(NavEvent::Up)
            } else if c == 'l' {
                Some(NavEvent::Rigth)
            } else if c == 'h' || c == 'H' {
                Some(NavEvent::Left)
            } else {
                None
            }
        },
        _ => None,
    }
}

/// The navigation meaning of a key press, as executable code.
pub fn key_nav_cmd(k: KeyPress) -> (r: Option<NavEvent>)
    ensures
        r == key_nav(k),
{
    match k.key {
        Key::Down => Some(NavEvent::Down),
        Key::Up => Some(NavEvent::Up),
        Key::Right => Some(NavEvent::Rigth),
        Key::Left => Some(NavEvent::Left),
        Key::Enter => Some(NavEvent::Interact),
        Key::Esc => Some(NavEvent::Cancel),
        Key::Char(c) => {
            if c == 'j' || c == 'J' {
                Some(NavEvent::Down)
            } else if c == 'k' || c == 'K' {
                Some(NavEvent::Up)
            } else if c == 'l' {
                Some(NavEvent::Rigth)
            } else if c == 'h' || c == 'H' {
                Some(NavEvent::Left)
            } else {
                None
            }
        },
        _ => None,
    }
}

/// One event applied to the application: a notification line is appended;
/// a request to leave the screen pops the stack, and an empty stack ends
/// the run.
pub open spec fn apply_event_model(m: AppModel, e: EventModel) -> AppModel {
    match e {
        EventModel::Note(s) => AppModel { notifications: m.notifications.push(s), ..m },
        EventModel::Exit => {
            let scr = if m.screens.len() > 0 {
                m.screens.drop_last()
            } else {
                m.screens
            };
            AppModel {
                screens: scr,
                state: if scr.len() == 0 {
                    AppState::Exited
                } else {
                    m.state
                },
                ..m
            }
        },
    }
}

/// A queue of events applied in order.
pub open spec fn apply_events_model(m: AppModel, evs: Seq<EventModel>) -> AppModel
    decreases evs.len(),
{
    if evs.len() == 0 {
        m
    } else {
        apply_events_model(apply_event_model(m, evs[0]), evs.drop_first())
    }
}

/// Applying a queue and then one more event is applying the queue with the
/// event at its end.
proof fn lemma_apply_events_snoc(m: AppModel, evs: Seq<EventModel>, e: EventModel)
    ensures
        apply_events_model(m, evs.push(e)) == apply_event_model(apply_events_model(m, evs), e),
    decreases evs.len(),
{
    if evs.len() == 0 {
        assert(evs.push(e)[0] == e);
        assert(evs.push(e).drop_first() =~= Seq::<EventModel>::empty());
        assert(apply_events_model(apply_event_model(m, e), Seq::<EventModel>::empty())
            == apply_event_model(m, e));
        assert(apply_events_model(m, evs) == m);
    } else {
        assert(evs.push(e)[0] == evs[0]);
        assert(evs.push(e).drop_first() =~= evs.drop_first().push(e));
        lemma_apply_events_snoc(apply_event_model(m, evs[0]), evs.drop_first(), e);
    }
}

/// The notification log only grows: applying events keeps every logged
/// line in place and only appends.
pub proof fn lemma_log_is_append_only(m: AppModel, evs: Seq<EventModel>)
    ensures
        apply_events_model(m, evs).notifications.len() >= m.notifications.len(),
        forall|i: int|
            0 <= i < m.notifications.len() ==> #[trigger] apply_events_model(
                m,
                evs,
            ).notifications[i] == m.notifications[i],
    decreases evs.len(),
{
    if evs.len() > 0 {
        lemma_log_is_append_only(apply_event_model(m, evs[0]), evs.drop_first());
    }
}

/// The application with its top screen replaced.
pub open spec fn with_top(m: AppModel, sm: ScreenModel) -> AppModel {
    AppModel {
        screens: m.screens.update(m.screens.len() - 1, (m.screens.last().0, sm)),
        ..m
    }
}

/// The top screen stepped by one key press: its navigation meaning first,
/// then the raw key.
pub open spec fn top_routed_model(sm: ScreenModel, k: KeyPress) -> ScreenModel {
    let sm1 = match key_nav(k) {
        Some(e) => screen_nav_model(sm, e),
        None => sm,
    };
    screen_event_model(sm1, k)
}

/// The events that routing one key press to a screen produces.
pub open spec fn top_routed_events(sm: ScreenModel, k: KeyPress) -> Seq<EventModel> {
    let sm1 = match key_nav(k) {
        Some(e) => screen_nav_model(sm, e),
        None => sm,
    };
    (match key_nav(k) {
        Some(e) => screen_nav_events(sm, e),
        None => Seq::empty(),
    }) + screen_event_events(sm1, k)
}

/// An optional storage command as a queue of commands.
pub open spec fn opt_effect_seq(e: Option<EffectModel>) -> Seq<EffectModel> {
    match e {
        Some(x) => seq![x],
        None => Seq::empty(),
    }
}

/// The storage commands that routing one key press to a screen produces.
pub open spec fn top_routed_effects(sm: ScreenModel, k: KeyPress) -> Seq<EffectModel> {
    let sm1 = match key_nav(k) {
        Some(e) => screen_nav_model(sm, e),
        None => sm,
    };
    opt_effect_seq(
        match key_nav(k) {
            Some(e) => screen_nav_effect(sm, e),
            None => None,
        },
    ) + opt_effect_seq(screen_event_effect(sm1, k))
}

/// A freshly constructed screen of the given kind; the popup snapshots the
/// notification log.
pub open spec fn fresh_screen_model(kind: ScreenEnum, notes: Seq<Seq<char>>) -> ScreenModel {
    match kind {
        ScreenEnum::Account => ScreenModel::Account(crate::account::account_fresh()),
        ScreenEnum::Notifications => ScreenModel::Notifications(notes),
    }
}

/// One sample transaction of the debug bulk insert.
pub open spec fn fake_trn_model(num: int) -> TransactionModel {
    TransactionModel {
        transaction_id: None,
        credit_acc_id: Some(1),
        debit_acc_id: Some(2),
        timestamp: Date {
            year: if num <= 7999 {
                (2000 + num) as u16
            } else {
                9999
            },
            month: 2,
            day: 3,
        },
        category: Some("Category #"@ + dec_digits(num + 1)),
        amount: num * 100,
        description: Some("Desctiption #"@ + dec_digits(num + 1)),
    }
}

/// The sample transactions of the debug bulk insert.
pub open spec fn fake_trns_model(size: int) -> Seq<TransactionModel> {
    Seq::new(size as nat, |i: int| fake_trn_model(i))
}

/// Builds sample transactions for the debug bulk insert, with rising
/// dates and amounts.
pub fn gen_fake_trancations(size: u32) -> (r: Vec<Transaction>)
    ensures
        items_view(r@) == fake_trns_model(size as int),
        forall|i: int| 0 <= i < r@.len() ==> trn_wf(#[trigger] r@[i]@),
{
    let mut r: Vec<Transaction> = Vec::new();
    let mut num: u32 = 0;
    while num < size
        invariant
            num <= size,
            r@.len() == num as int,
            forall|i: int| 0 <= i < num ==> #[trigger] r@[i]@ == fake_trn_model(i),
            forall|i: int| 0 <= i < num ==> trn_wf(#[trigger] r@[i]@),
        decreases size - num,
    {
        let year: u16 = if num <= 7999 {
            (2000 + num) as u16
        } else {
            9999
        };
        let mut category = String::from_str("Category #");
        let digits = fmt_u64((num + 1) as u64);
        category.append(chars_to_string(&digits).as_str());
        let mut description = String::from_str("Desctiption #");
        description.append(chars_to_string(&digits).as_str());
        let t = Transaction {
            transaction_id: None,
            credit_acc_id: Some(1),
            debit_acc_id: Some(2),
            timestamp: Date { year, month: 2, day: 3 },
            category: Some(category),
            amount: num as i64 * 100,
            description: Some(description),
        };
        proof {
            assert(t@ == fake_trn_model(num as int));
        }
        r.push(t);
        num += 1;
    }
    proof {
        assert(items_view(r@) =~= fake_trns_model(size as int));
    }
    r
}

/// What one key press does to the whole application. The quit combination
/// ends the run at once. With the popup on top, the key reaches only the
/// popup. With the account screen on top, the popup toggle and the debug
/// insert pre-empt the screen; any other key is routed to the screen —
/// its navigation meaning first, then the raw key — and the events the
/// screen emits are applied to the log and the stack.
pub open spec fn handle_key_post(
    m0: AppModel,
    m1: AppModel,
    k: KeyPress,
    effs: Seq<EffectModel>,
) -> bool {
    if is_quit_key(k) {
        m1 == AppModel { state: AppState::Exited, ..m0 } && effs.len() == 0
    } else if m0.screens.len() == 0 {
        m1 == m0 && effs.len() == 0
    } else {
        let top = m0.screens.last().1;
        match top {
            ScreenModel::Notifications(_) => effs.len() == 0 && m1 == apply_events_model(
                m0,
                top_routed_events(top, k),
            ),
            ScreenModel::Account(_) => {
                if is_popup_key(k) {
                    effs.len() == 0 && m1 == AppModel {
                        screens: m0.screens.push(
                            (ScreenEnum::Notifications, ScreenModel::Notifications(
                                m0.notifications,
                            )),
                        ),
                        ..m0
                    }
                } else if is_gen_key(k) {
                    &&& m1 == AppModel {
                        notifications: m0.notifications.push("Generating 5 fake transactions"@),
                        ..m0
                    }
                    &&& effs == seq![
                        EffectModel::PutMany(fake_trns_model(5)),
                        EffectModel::Sync,
                    ]
                } else {
                    &&& m1 == apply_events_model(
                        with_top(m0, top_routed_model(top, k)),
                        top_routed_events(top, k),
                    )
                    &&& effs == top_routed_effects(top, k)
                }
            },
        }
    }
}

impl App {
    /// A fresh application.
    pub fn new() -> (r: App)
        ensures
            r@ == app_fresh(),
            app_wf(r@),
    {
        let r = App {
            state: AppState::Running,
            screens: Vec::new(),
            frames_count: 0,
            notifications: Vec::new(),
        };
        proof {
            assert(screens_view(r.screens@) =~= Seq::<(ScreenEnum, ScreenModel)>::empty());
            assert(notes_view(r.notifications@) =~= Seq::<Seq<char>>::empty());
        }
        r
    }

    /// Is the control loop still running?
    pub fn state(&self) -> (r: AppState)
        ensures
            r == self@.state,
    {
        self.state
    }

    /// Counts one rendered frame, wrapping at the counter's width.
    pub fn count_frame(&mut self)
        ensures
            final(self)@ == (AppModel { frames: (old(self)@.frames + 1) % 4294967296, ..old(self)@ }),
    {
        if self.frames_count == u32::MAX {
            self.frames_count = 0;
        } else {
            self.frames_count = self.frames_count + 1;
        }
    }

    /// Appends a line to the notification log; the shell uses this to
    /// report failed storage commands.
    pub fn notify(&mut self, msg: String)
        ensures
            final(self)@ == (AppModel {
                notifications: old(self)@.notifications.push(msg@),
                ..old(self)@
            }),
    {
        let ghost msgv = msg@;
        self.notifications.push(msg);
        proof {
            assert(notes_view(self.notifications@) =~= old(self)@.notifications.push(msgv));
        }
    }

    /// The notification log, for rendering the footer and the popup.
    pub fn notifications(&self) -> (r: &Vec<String>)
        ensures
            notes_view(r@) == self@.notifications,
    {
        &self.notifications
    }

    /// The whole screen stack, bottom first, for rendering.
    pub fn screens(&self) -> (r: &Vec<(ScreenEnum, Screen)>)
        ensures
            screens_view(r@) == self@.screens,
    {
        &self.screens
    }

    /// The top of the screen stack, for rendering.
    pub fn top(&self) -> (r: Option<&(ScreenEnum, Screen)>)
        ensures
            match r {
                Some(p) => self@.screens.len() > 0 && (p.0, p.1@) == self@.screens.last(),
                None => self@.screens.len() == 0,
            },
    {
        if self.screens.len() == 0 {
            None
        } else {
            Some(&self.screens[self.screens.len() - 1])
        }
    }

    /// Pushes a screen of `kind` unless the top already has that kind.
    /// `true` asks the caller to reload the new screen from storage.
    pub fn load_screen(&mut self, kind: ScreenEnum) -> (r: bool)
        requires
            app_wf(old(self)@),
        ensures
            app_wf(final(self)@),
            ({
                let m0 = old(self)@;
                if m0.screens.len() > 0 && m0.screens.last().0 == kind {
                    final(self)@ == m0 && r == false
                } else {
                    final(self)@ == AppModel {
                        screens: m0.screens.push((kind, fresh_screen_model(kind, m0.notifications))),
                        ..m0
                    } && r == (kind == ScreenEnum::Account)
                }
            }),
    {
        if self.screens.len() > 0 {
            let top_kind = self.screens[self.screens.len() - 1].0;
            if top_kind == kind {
                return false;
            }
        }
        let screen = match kind {
            ScreenEnum::Account => Screen::Account(AccountScreen::new()),
            ScreenEnum::Notifications => Screen::Notifications(
                NotificationsScreen::new(clone_strings(&self.notifications)),
            ),
        };
        let ghost sm = screen@;
        self.screens.push((kind, screen));
        proof {
            assert(screens_view(self.screens@) =~= old(self)@.screens.push((kind, sm)));
            assert(sm == fresh_screen_model(kind, old(self)@.notifications));
        }
        match kind {
            ScreenEnum::Account => true,
            ScreenEnum::Notifications => false,
        }
    }

    /// Hands the freshly listed transactions to the top screen.
    pub fn sync_top(&mut self, items: Vec<Transaction>)
        requires
            app_wf(old(self)@),
            forall|i: int| 0 <= i < items@.len() ==> trn_wf(#[trigger] items@[i]@),
        ensures
            app_wf(final(self)@),
            ({
                let m0 = old(self)@;
                if m0.screens.len() == 0 {
                    final(self)@ == m0
                } else {
                    final(self)@ == with_top(
                        m0,
                        screen_sync_model(m0.screens.last().1, items_view(items@)),
                    )
                }
            }),
    {
        match self.screens.pop() {
            Some((kind, mut top)) => {
                top.sync(items);
                let ghost sm = top@;
                self.screens.push((kind, top));
                proof {
                    assert(screens_view(self.screens@) =~= old(self)@.screens.update(
                        old(self)@.screens.len() - 1,
                        (old(self)@.screens.last().0, sm),
                    ));
                }
            },
            None => {},
        }
    }

    /// Applies the events a screen emitted: notifications join the log and
    /// each request to leave pops one screen; an empty stack ends the run.
    fn apply_events(&mut self, evs: Vec<AppEvent>)
        requires
            app_wf(old(self)@),
        ensures
            app_wf(final(self)@),
            final(self)@ == apply_events_model(old(self)@, events_view(evs@)),
    {
        let mut i: usize = 0;
        while i < evs.len()
            invariant
                i <= evs.len(),
                app_wf(self@),
                self@ == apply_events_model(old(self)@, events_view(evs@).subrange(0, i as int)),
            decreases evs.len() - i,
        {
            let ghost pre = self@;
            match &evs[i] {
                AppEvent::Notifiction(s) => {
                    self.notifications.push(s.clone());
                    proof {
                        assert(notes_view(self.notifications@) =~= pre.notifications.push(s@));
                    }
                },
                AppEvent::ExitScreen => {
                    if self.screens.len() > 0 {
                        self.screens.pop();
                        proof {
                            assert(screens_view(self.screens@) =~= pre.screens.drop_last());
                        }
                    }
                    if self.screens.len() == 0 {
                        self.state = AppState::Exited;
                    }
                },
            }
            proof {
                assert(self@ == apply_event_model(pre, events_view(evs@)[i as int]));
                assert(events_view(evs@).subrange(0, i + 1) =~= events_view(evs@).subrange(
                    0,
                    i as int,
                ).push(events_view(evs@)[i as int]));
                lemma_apply_events_snoc(
                    old(self)@,
                    events_view(evs@).subrange(0, i as int),
                    events_view(evs@)[i as int],
                );
            }
            i += 1;
        }
        proof {
            assert(events_view(evs@).subrange(0, evs@.len() as int) =~= events_view(evs@));
        }
    }

    /// One key press, routed as the control loop routes it; the returned
    /// storage commands are for the shell to run, in order.
    pub fn handle_key(&mut self, k: KeyPress) -> (r: Vec<Effect>)
        requires
            app_wf(old(self)@),
        ensures
            app_wf(final(self)@),
            handle_key_post(old(self)@, final(self)@, k, effects_view(r@)),
    {
        let ghost m0 = self@;
        if k.ctrl && (matches!(k.key, Key::Char('c')) || matches!(k.key, Key::Char('C'))) {
            self.state = AppState::Exited;
            proof {
                assert(effects_view(Seq::<Effect>::empty()) =~= Seq::<EffectModel>::empty());
            }
            return Vec::new();
        }
        if self.screens.len() == 0 {
            proof {
                assert(effects_view(Seq::<Effect>::empty()) =~= Seq::<EffectModel>::empty());
            }
            return Vec::new();
        }
        let top_kind = self.screens[self.screens.len() - 1].0;
        let ghost top0 = m0.screens.last().1;
        if matches!(top_kind, ScreenEnum::Notifications) {
            let (kind, mut top) = match self.screens.pop() {
                Some(p) => p,
                None => {
                    proof {
                        assert(false);
                    }
                    unreached()
                },
            };
            let mut evs: Vec<AppEvent> = Vec::new();
            match key_nav_cmd(k) {
                Some(e) => {
                    let (mut e1, _f1) = top.handle_nav(e);
                    evs.append(&mut e1);
                },
                None => {},
            }
            let (mut e2, _f2) = top.handle_event(k);
            evs.append(&mut e2);
            self.screens.push((kind, top));
            proof {
                assert(screens_view(self.screens@) =~= m0.screens);
                assert(events_view(evs@) =~= top_routed_events(top0, k));
            }
            self.apply_events(evs);
            proof {
                assert(effects_view(Seq::<Effect>::empty()) =~= Seq::<EffectModel>::empty());
            }
            return Vec::new();
        }
        if matches!(k.key, Key::Char('n')) || matches!(k.key, Key::Char('N')) {
            let _needs_sync = self.load_screen(ScreenEnum::Notifications);
            proof {
                assert(effects_view(Seq::<Effect>::empty()) =~= Seq::<EffectModel>::empty());
            }
            return Vec::new();
        }
        if matches!(k.key, Key::Char('g')) || matches!(k.key, Key::Char('G')) {
            self.notify(String::from_str("Generating 5 fake transactions"));
            let mut effs: Vec<Effect> = Vec::new();
            effs.push(Effect::PutMany(gen_fake_trancations(5)));
            effs.push(Effect::Sync);
            proof {
                assert(effects_view(effs@) =~= seq![
                    EffectModel::PutMany(fake_trns_model(5)),
                    EffectModel::Sync,
                ]);
            }
            return effs;
        }
        let (kind, mut top) = match self.screens.pop() {
            Some(p) => p,
            None => {
                proof {
                    assert(false);
                }
                unreached()
            },
        };
        let mut evs: Vec<AppEvent> = Vec::new();
        let mut effs: Vec<Effect> = Vec::new();
        match key_nav_cmd(k) {
            Some(e) => {
                let (mut e1, f1) = top.handle_nav(e);
                evs.append(&mut e1);
                match f1 {
                    Some(f) => effs.push(f),
                    None => {},
                }
            },
            None => {},
        }
        let (mut e2, f2) = top.handle_event(k);
        evs.append(&mut e2);
        match f2 {
            Some(f) => effs.push(f),
            None => {},
        }
        let ghost sm = top@;
        self.screens.push((kind, top));
        proof {
            assert(sm == top_routed_model(top0, k));
            assert(screens_view(self.screens@) =~= m0.screens.update(
                m0.screens.len() - 1,
                (m0.screens.last().0, sm),
            ));
            assert(events_view(evs@) =~= top_routed_events(top0, k));
            assert(effects_view(effs@) =~= top_routed_effects(top0, k));
        }
        self.apply_events(evs);
        effs
    }
}

} // verus!
