//! The in-memory store against the storage contract: listing, inserting,
//! updating in place and deleting by identifier.

use budget_tui::notifications::NotificationsScreen;
use budget_tui::store::MemoryStore;
use budget_tui::types::{Date, Transaction};

fn trn(amount: i64, category: &str) -> Transaction {
    Transaction {
        transaction_id: None,
        credit_acc_id: Some(3),
        debit_acc_id: Some(4),
        timestamp: Date { year: 2023, month: 11, day: 9 },
        category: Some(String::from(category)),
        description: Some(String::from("entry")),
        amount,
    }
}

#[test]
fn create_service() {
    let service = MemoryStore::new();
    let trans = service.list();
    assert_eq!(trans, vec![]);
}

#[test]
fn insert_transactions() {
    let mut service = MemoryStore::new();
    service.put(&trn(1200, "Rent")).expect("fresh ids are left");
    service.put(&trn(-50, "Food")).expect("fresh ids are left");
    assert_eq!(service.list().len(), 2);
}

#[test]
fn update_transaction() {
    let mut service = MemoryStore::new();
    let mut t = trn(999, "Books");
    t.transaction_id = Some(service.put(&t).expect("fresh ids are left"));

    let content = service.list();
    assert_eq!(content, vec![t]);
}

#[test]
fn delete_transactions() {
    let mut service = MemoryStore::new();
    let mut t1 = trn(10, "One");
    let mut t2 = trn(20, "Two");

    t1.transaction_id = Some(service.put(&t1).expect("fresh ids are left"));
    t2.transaction_id = Some(service.put(&t2).expect("fresh ids are left"));

    assert!(service.list().len() == 2);

    service.delete(&vec![t1.transaction_id.unwrap()]);

    assert_eq!(service.list(), vec![t2]);
}

#[test]
fn ids_count_up_from_one() {
    let mut service = MemoryStore::new();
    let first = service.put(&trn(1, "a")).expect("fresh ids are left");
    let second = service.put(&trn(2, "b")).expect("fresh ids are left");
    assert_eq!((first, second), (1, 2));
}

#[test]
fn put_with_id_updates_in_place() {
    let mut service = MemoryStore::new();
    let mut t = trn(10, "Old");
    t.transaction_id = Some(service.put(&t).expect("fresh ids are left"));
    t.amount = 77;
    t.category = Some(String::from("New"));
    let id = service.put(&t).expect("updates never need a fresh id");
    assert_eq!(Some(id), t.transaction_id);
    let content = service.list();
    assert_eq!(content.len(), 1);
    assert_eq!(content[0].amount, 77);
    assert_eq!(content[0].category.as_deref(), Some("New"));
}

#[test]
fn put_with_unknown_id_changes_nothing() {
    let mut service = MemoryStore::new();
    service.put(&trn(10, "kept")).expect("fresh ids are left");
    let mut ghost_entry = trn(99, "nowhere");
    ghost_entry.transaction_id = Some(42);
    service.put(&ghost_entry).expect("updates never need a fresh id");
    let content = service.list();
    assert_eq!(content.len(), 1);
    assert_eq!(content[0].amount, 10);
}

#[test]
fn delete_unknown_id_is_a_noop() {
    let mut service = MemoryStore::new();
    service.put(&trn(10, "kept")).expect("fresh ids are left");
    service.delete(&vec![999]);
    assert_eq!(service.list().len(), 1);
}

#[test]
fn popup_shows_newest_first() {
    let screen = NotificationsScreen::new(vec![
        String::from("oldest"),
        String::from("middle"),
        String::from("newest"),
    ]);
    assert_eq!(screen.visible(2), vec![String::from("newest"), String::from("middle")]);
    assert_eq!(screen.visible(10).len(), 3);
    assert_eq!(screen.visible(0).len(), 0);
}
