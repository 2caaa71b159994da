//! The control loop driven key by key: editing a cell end to end through
//! the store, the notifications popup, deletion, the debug insert, and the
//! quit paths.

use budget_tui::account::AccountScreen;
use budget_tui::app::{gen_fake_trancations, App, AppState};
use budget_tui::fields::cell_text;
use budget_tui::screens::{Screen, ScreenEnum};
use budget_tui::store::MemoryStore;
use budget_tui::types::{Date, Effect, Key, KeyPress, ScreenMode, Transaction};

fn key(c: char) -> KeyPress {
    KeyPress { key: Key::Char(c), ctrl: false }
}

fn kp(k: Key) -> KeyPress {
    KeyPress { key: k, ctrl: false }
}

fn sample(amount: i64, day: u8) -> Transaction {
    Transaction {
        transaction_id: None,
        credit_acc_id: Some(1),
        debit_acc_id: Some(2),
        timestamp: Date { year: 2024, month: 3, day },
        category: Some(String::from("Groceries")),
        description: Some(String::from("weekly shop")),
        amount,
    }
}

fn setup(n: usize) -> (MemoryStore, App) {
    let mut store = MemoryStore::new();
    for i in 0..n {
        store.put(&sample(100 * (i as i64 + 1), (i as u8) + 1)).expect("fresh ids are left");
    }
    let mut app = App::new();
    let needs_sync = app.load_screen(ScreenEnum::Account);
    assert!(needs_sync);
    app.sync_top(store.list());
    (store, app)
}

fn account(app: &App) -> &AccountScreen {
    match app.top() {
        Some((ScreenEnum::Account, Screen::Account(a))) => a,
        _ => panic!("the account screen should be on top"),
    }
}

fn run_effects(store: &mut MemoryStore, app: &mut App, effects: Vec<Effect>) {
    for effect in effects {
        match effect {
            Effect::Put(t) => {
                store.put(&t).expect("fresh ids are left");
            },
            Effect::Delete(id) => {
                store.delete(&vec![id]);
            },
            Effect::PutMany(ts) => {
                for t in &ts {
                    store.put(t).expect("fresh ids are left");
                }
            },
            Effect::Sync => {
                app.sync_top(store.list());
            },
        }
    }
}

#[test]
fn edit_amount_end_to_end() {
    let (mut store, mut app) = setup(3);
    // The first press selects the first row; the fresh screen starts with
    // no row selected until a key moves the selection.
    app.handle_key(key('j'));
    app.handle_key(key('j'));
    for _ in 0..4 {
        app.handle_key(key('l'));
    }
    assert_eq!(account(&app).table().selected(), (Some(1), Some(3)));

    app.handle_key(kp(Key::Enter));
    assert_eq!(account(&app).table().mode(), ScreenMode::Editing);

    for c in "50.00".chars() {
        app.handle_key(key(c));
    }
    assert_eq!(account(&app).table().input().text_string(), "50.00");

    let effects = app.handle_key(kp(Key::Enter));
    assert_eq!(account(&app).table().mode(), ScreenMode::Browsing);
    assert_eq!(account(&app).items()[1].amount, 5000);
    assert_eq!(effects.len(), 1);
    match &effects[0] {
        Effect::Put(t) => {
            assert_eq!(t.amount, 5000);
            assert_eq!(t.transaction_id, account(&app).items()[1].transaction_id);
        },
        other => panic!("a persist command was expected, got {other:?}"),
    }

    // The write survives a resync: put, list and sync, and the edited
    // value is still in the model.
    run_effects(&mut store, &mut app, effects);
    app.sync_top(store.list());
    assert_eq!(account(&app).items()[1].amount, 5000);
    assert_eq!(cell_text(&account(&app).items()[1], 3), "50.00");
    assert_eq!(account(&app).table().selected(), (Some(1), Some(3)));
}

#[test]
fn popup_preserves_selection() {
    let (_store, mut app) = setup(3);
    app.handle_key(key('j'));
    app.handle_key(key('j'));
    app.handle_key(key('l'));
    app.handle_key(key('l'));
    let before = account(&app).table().selected();
    assert_eq!(before, (Some(1), Some(1)));

    app.handle_key(key('n'));
    match app.top() {
        Some((ScreenEnum::Notifications, Screen::Notifications(_))) => {},
        _ => panic!("the notifications popup should be on top"),
    }

    app.handle_key(kp(Key::Esc));
    assert_eq!(account(&app).table().selected(), before);
    assert_eq!(account(&app).items().len(), 3);
    assert_eq!(app.state(), AppState::Running);
}

#[test]
fn popup_toggle_is_idempotent() {
    let (_store, mut app) = setup(1);
    app.handle_key(key('n'));
    app.handle_key(key('n'));
    app.handle_key(key('q'));
    match app.top() {
        Some((ScreenEnum::Account, _)) => {},
        _ => panic!("one escape should close the single popup"),
    }
}

#[test]
fn quit_combo_exits_immediately() {
    let (_store, mut app) = setup(2);
    let effects = app.handle_key(KeyPress { key: Key::Char('c'), ctrl: true });
    assert!(effects.is_empty());
    assert_eq!(app.state(), AppState::Exited);
}

#[test]
fn leaving_the_last_screen_exits() {
    let (_store, mut app) = setup(2);
    app.handle_key(key('q'));
    assert!(app.top().is_none());
    assert_eq!(app.state(), AppState::Exited);
}

#[test]
fn delete_clamps_selection_to_new_last_row() {
    let (mut store, mut app) = setup(3);
    app.handle_key(key('j'));
    app.handle_key(key('j'));
    app.handle_key(key('j'));
    assert_eq!(account(&app).table().selected().0, Some(2));

    let deleted_id = account(&app).items()[2].transaction_id;
    let effects = app.handle_key(key('d'));
    assert_eq!(account(&app).items().len(), 2);
    assert_eq!(account(&app).table().selected().0, Some(1));
    assert_eq!(app.notifications().last().map(String::as_str), Some("Deleting transaction 2"));
    match effects.as_slice() {
        [Effect::Delete(id)] => assert_eq!(Some(*id), deleted_id),
        other => panic!("a delete command was expected, got {other:?}"),
    }

    run_effects(&mut store, &mut app, effects);
    assert_eq!(store.list().len(), 2);
}

#[test]
fn invalid_edit_becomes_a_notification() {
    let (_store, mut app) = setup(2);
    app.handle_key(key('j'));
    for _ in 0..4 {
        app.handle_key(key('l'));
    }
    app.handle_key(kp(Key::Enter));
    // The navigation letters land in the buffer while editing.
    app.handle_key(key('j'));
    app.handle_key(key('k'));
    let before = account(&app).items()[0].amount;
    let effects = app.handle_key(kp(Key::Enter));
    assert!(effects.is_empty());
    assert_eq!(account(&app).items()[0].amount, before);
    assert_eq!(app.notifications().last().map(String::as_str), Some("Invalid value"));
    assert_eq!(account(&app).table().mode(), ScreenMode::Browsing);
}

#[test]
fn cancel_restores_cell_text() {
    let (_store, mut app) = setup(2);
    app.handle_key(key('j'));
    for _ in 0..4 {
        app.handle_key(key('l'));
    }
    let before = cell_text(&account(&app).items()[0], 3);
    app.handle_key(kp(Key::Enter));
    app.handle_key(key('9'));
    app.handle_key(key('9'));
    app.handle_key(kp(Key::Esc));
    assert_eq!(cell_text(&account(&app).items()[0], 3), before);
    assert_eq!(account(&app).table().mode(), ScreenMode::Browsing);
    assert_eq!(account(&app).table().selected(), (Some(0), Some(3)));
}

#[test]
fn generate_key_asks_for_sample_rows_and_a_sync() {
    let (mut store, mut app) = setup(0);
    let effects = app.handle_key(key('g'));
    assert_eq!(
        app.notifications().last().map(String::as_str),
        Some("Generating 5 fake transactions"),
    );
    match effects.as_slice() {
        [Effect::PutMany(ts), Effect::Sync] => {
            assert_eq!(ts.len(), 5);
            assert_eq!(ts[0].category.as_deref(), Some("Category #1"));
            assert_eq!(ts[0].description.as_deref(), Some("Desctiption #1"));
            assert_eq!(ts[4].amount, 400);
            assert_eq!(ts[4].timestamp, Date { year: 2004, month: 2, day: 3 });
        },
        other => panic!("a bulk insert and a sync were expected, got {other:?}"),
    }
    run_effects(&mut store, &mut app, effects);
    assert_eq!(store.list().len(), 5);
    assert_eq!(account(&app).items().len(), 5);
    // No row had been selected before the sync, so none is restored.
    assert_eq!(account(&app).table().selected().0, None);
    app.handle_key(key('j'));
    assert_eq!(account(&app).table().selected().0, Some(0));
}

#[test]
fn generated_rows_count_up() {
    let rows = gen_fake_trancations(3);
    assert_eq!(rows.len(), 3);
    assert_eq!(rows[0].amount, 0);
    assert_eq!(rows[1].amount, 100);
    assert_eq!(rows[2].timestamp.year, 2002);
    assert!(rows.iter().all(|t| t.transaction_id.is_none()));
}

#[test]
fn frames_count_up() {
    let mut app = App::new();
    app.count_frame();
    app.count_frame();
    // The counter is internal; counting frames must at least not disturb
    // the run state.
    assert_eq!(app.state(), AppState::Running);
}

#[test]
fn notifications_log_appends() {
    let mut app = App::new();
    app.notify(String::from("first"));
    app.notify(String::from("second"));
    assert_eq!(app.notifications().len(), 2);
    assert_eq!(app.notifications().last().map(String::as_str), Some("second"));
}
