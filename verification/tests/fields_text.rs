//! Formatting and parsing of the table's cell texts: amounts in minor
//! units, dates, and writing edited text back into a transaction.

use budget_tui::chars::string_to_chars;
use budget_tui::fields::{cell_text, format_amount, format_date, parse_amount, parse_date,
    write_back};
use budget_tui::types::{Date, Transaction};

fn chars(s: &str) -> Vec<char> {
    string_to_chars(s)
}

fn sample_trn() -> Transaction {
    Transaction {
        transaction_id: Some(7),
        credit_acc_id: Some(1),
        debit_acc_id: Some(2),
        timestamp: Date { year: 2024, month: 1, day: 31 },
        category: Some(String::from("Rent")),
        amount: -123456,
        description: None,
    }
}

#[test]
fn amounts_format_as_minor_units() {
    assert_eq!(format_amount(5000), "50.00");
    assert_eq!(format_amount(5), "0.05");
    assert_eq!(format_amount(0), "0.00");
    assert_eq!(format_amount(-150), "-1.50");
    assert_eq!(format_amount(i64::MIN), "-92233720368547758.08");
}

#[test]
fn amounts_parse_from_edited_text() {
    assert_eq!(parse_amount(&chars("50.00")), Some(5000));
    assert_eq!(parse_amount(&chars("50")), Some(5000));
    assert_eq!(parse_amount(&chars("50.5")), Some(5050));
    assert_eq!(parse_amount(&chars("-1.50")), Some(-150));
    assert_eq!(parse_amount(&chars("007")), Some(700));
    assert_eq!(parse_amount(&chars("-92233720368547758.08")), Some(i64::MIN));
}

#[test]
fn bad_amounts_are_refused() {
    assert_eq!(parse_amount(&chars("")), None);
    assert_eq!(parse_amount(&chars("-")), None);
    assert_eq!(parse_amount(&chars("abc")), None);
    assert_eq!(parse_amount(&chars("1.234")), None);
    assert_eq!(parse_amount(&chars(".5")), None);
    assert_eq!(parse_amount(&chars("1.")), None);
    assert_eq!(parse_amount(&chars("12a4")), None);
    assert_eq!(parse_amount(&chars("92233720368547758.08")), None);
}

#[test]
fn amount_round_trip() {
    for a in [0i64, 1, 99, 100, -1, -99, 5000, -123456, i64::MAX, i64::MIN] {
        let text = format_amount(a);
        assert_eq!(parse_amount(&string_to_chars(&text)), Some(a));
    }
}

#[test]
fn dates_format_zero_padded() {
    assert_eq!(format_date(Date { year: 2024, month: 1, day: 31 }), "2024-01-31");
    assert_eq!(format_date(Date { year: 33, month: 12, day: 5 }), "0033-12-05");
}

#[test]
fn dates_parse_from_edited_text() {
    assert_eq!(parse_date(&chars("2024-01-31")), Some(Date { year: 2024, month: 1, day: 31 }));
    assert_eq!(parse_date(&chars("0001-12-31")), Some(Date { year: 1, month: 12, day: 31 }));
}

#[test]
fn bad_dates_are_refused() {
    assert_eq!(parse_date(&chars("2024-13-01")), None);
    assert_eq!(parse_date(&chars("2024-00-10")), None);
    assert_eq!(parse_date(&chars("2024-01-32")), None);
    assert_eq!(parse_date(&chars("2024-1-3")), None);
    assert_eq!(parse_date(&chars("2024/01/03")), None);
    assert_eq!(parse_date(&chars("")), None);
}

#[test]
fn date_round_trip() {
    for d in [
        Date { year: 0, month: 1, day: 1 },
        Date { year: 2024, month: 2, day: 29 },
        Date { year: 9999, month: 12, day: 31 },
    ] {
        let text = format_date(d);
        assert_eq!(parse_date(&string_to_chars(&text)), Some(d));
    }
}

#[test]
fn cells_render_each_column() {
    let t = sample_trn();
    assert_eq!(cell_text(&t, 0), "2024-01-31");
    assert_eq!(cell_text(&t, 1), "Rent");
    assert_eq!(cell_text(&t, 2), "");
    assert_eq!(cell_text(&t, 3), "-1234.56");
}

#[test]
fn write_back_amount() {
    let t = sample_trn();
    let t2 = write_back(&t, 3, &chars("50.00")).expect("a valid amount is written back");
    assert_eq!(t2.amount, 5000);
    assert_eq!(t2.transaction_id, t.transaction_id);
    assert_eq!(t2.category, t.category);
    assert_eq!(write_back(&t, 3, &chars("abc")), None);
}

#[test]
fn write_back_date() {
    let t = sample_trn();
    let t2 = write_back(&t, 0, &chars("1999-06-07")).expect("a valid date is written back");
    assert_eq!(t2.timestamp, Date { year: 1999, month: 6, day: 7 });
    assert_eq!(write_back(&t, 0, &chars("1999-06")), None);
}

#[test]
fn write_back_text_fields() {
    let t = sample_trn();
    let t2 = write_back(&t, 1, &chars("Food")).expect("category text always fits");
    assert_eq!(t2.category.as_deref(), Some("Food"));
    let t3 = write_back(&t, 1, &chars("")).expect("empty text clears the field");
    assert_eq!(t3.category, None);
    let t4 = write_back(&t, 2, &chars("weekly shop")).expect("description text always fits");
    assert_eq!(t4.description.as_deref(), Some("weekly shop"));
}
