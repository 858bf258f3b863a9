use procurement::codec::{Instant, LAST_SECOND};
use procurement::error::{DecodeError, ServiceError};
use procurement::models::{TransactionDbRow, TransactionLines, TransactionResponse};
use procurement::service::{
    create_transaction, get_transaction, list_transactions, total_spent,
};
use procurement::store::Table;

fn lines(invoice: &str, value_ore: i64, invoice_date: Option<Instant>) -> TransactionLines {
    TransactionLines {
        invoice_number: invoice.to_string(),
        supplier: "Acme".to_string(),
        invoice_date,
        due_date: None,
        value_ore,
        spend_category_l1: "Goods".to_string(),
        spend_category_l2: "Office".to_string(),
        spend_category_l3: "Paper".to_string(),
        spend_category_l4: "A4".to_string(),
    }
}

#[test]
fn total_spent_sums_values() {
    let mut table: Table<TransactionDbRow> = Table::new();
    assert_eq!(total_spent(&table), 0);
    create_transaction(&mut table, lines("INV-1", 10000, None)).unwrap();
    create_transaction(&mut table, lines("INV-2", 25050, None)).unwrap();
    assert_eq!(total_spent(&table), 35050);
}

#[test]
fn total_spent_handles_negative_and_extreme_values() {
    let mut table: Table<TransactionDbRow> = Table::new();
    create_transaction(&mut table, lines("A", i64::MAX, None)).unwrap();
    create_transaction(&mut table, lines("B", i64::MAX, None)).unwrap();
    create_transaction(&mut table, lines("C", -5, None)).unwrap();
    assert_eq!(total_spent(&table), 2 * (i64::MAX as i128) - 5);
}

#[test]
fn create_then_get_keeps_dates() {
    let mut table: Table<TransactionDbRow> = Table::new();
    let mut p = lines("INV-9", 12345, Some(Instant { secs: 1431648000, nanos: 250_000_000 }));
    p.due_date = Some(Instant { secs: 1434326400, nanos: 0 });
    let created = create_transaction(&mut table, p.clone()).unwrap();
    assert_eq!(created, TransactionResponse::created(1, p));
    let read = get_transaction(&table, 1).unwrap();
    assert_eq!(read, created);
    let stored = table.get_by_identity(1).unwrap();
    assert_eq!(stored.invoice_date.as_deref(), Some("2015-05-15T00:00:00.250+00:00"));
    assert_eq!(stored.due_date.as_deref(), Some("2015-06-15T00:00:00+00:00"));
}

#[test]
fn invalid_date_is_rejected_without_storing() {
    let mut table: Table<TransactionDbRow> = Table::new();
    let p = lines("INV-X", 1, Some(Instant { secs: LAST_SECOND + 1, nanos: 0 }));
    assert_eq!(create_transaction(&mut table, p), Err(ServiceError::Validation));
    assert_eq!(table.count(), 0);
    let ok = create_transaction(&mut table, lines("INV-Y", 1, None)).unwrap();
    assert_eq!(ok.id, 1);
}

#[test]
fn unassigned_transaction_is_not_found() {
    let mut table: Table<TransactionDbRow> = Table::new();
    create_transaction(&mut table, lines("INV-1", 1, None)).unwrap();
    assert_eq!(get_transaction(&table, 2), Err(ServiceError::NotFound));
    assert_eq!(get_transaction(&table, 0), Err(ServiceError::NotFound));
}

#[test]
fn list_decodes_every_row() {
    let mut table: Table<TransactionDbRow> = Table::new();
    assert_eq!(list_transactions(&table), Ok(vec![]));
    let a = create_transaction(&mut table, lines("A", 1, Some(Instant { secs: 0, nanos: 0 })))
        .unwrap();
    let b = create_transaction(&mut table, lines("B", 2, None)).unwrap();
    assert_eq!(list_transactions(&table), Ok(vec![a, b]));
}

fn stored_row(invoice_date: Option<&str>) -> TransactionDbRow {
    TransactionDbRow {
        id: 4,
        invoice_number: "INV-4".to_string(),
        supplier: "Acme".to_string(),
        invoice_date: invoice_date.map(|s| s.to_string()),
        due_date: None,
        value_ore: 100,
        spend_category_l1: "Goods".to_string(),
        spend_category_l2: "Office".to_string(),
        spend_category_l3: "Paper".to_string(),
        spend_category_l4: "A4".to_string(),
    }
}

#[test]
fn row_into_response_decodes_dates() {
    let resp = stored_row(Some("1970-01-01T01:00:00+01:00")).into_response().unwrap();
    assert_eq!(resp.id, 4);
    assert_eq!(resp.invoice_date, Some(Instant { secs: 0, nanos: 0 }));
    assert_eq!(resp.due_date, None);
    assert_eq!(resp.value_ore, 100);
}

#[test]
fn row_with_malformed_date_is_an_error() {
    let r = stored_row(Some("yesterday")).into_response();
    assert_eq!(r, Err(DecodeError::MalformedInstant));
    assert_eq!(ServiceError::from(DecodeError::MalformedInstant), ServiceError::Validation);
}
