use procurement::error::{ServiceError, StoreError};
use procurement::models::{SupplierDbRow, SupplierLines, SupplierResponse};
use procurement::service::{create_supplier, get_supplier, list_suppliers, total_suppliers};
use procurement::store::{EntityStore, Table};

fn lines(name: &str, original: &str, country: &str, vat: &str, nace: &str) -> SupplierLines {
    SupplierLines {
        supplier: name.to_string(),
        supplier_name_original: original.to_string(),
        supplier_country: country.to_string(),
        vat_id: vat.to_string(),
        nace: nace.to_string(),
    }
}

fn acme() -> SupplierLines {
    lines("Acme", "Acme AS", "NO", "NO123", "4611")
}

#[test]
fn create_then_get_acme() {
    let mut store = EntityStore::new();
    let created = create_supplier(&mut store.suppliers, acme()).unwrap();
    assert_eq!(created.id, 1);
    assert_eq!(created.supplier, "Acme");
    assert_eq!(created.supplier_name_original, "Acme AS");
    assert_eq!(created.supplier_country, "NO");
    assert_eq!(created.vat_id, "NO123");
    assert_eq!(created.nace, "4611");
    let read = get_supplier(&store.suppliers, created.id).unwrap();
    assert_eq!(read, created);
}

#[test]
fn identities_strictly_increase() {
    let mut table: Table<SupplierDbRow> = Table::new();
    let a = create_supplier(&mut table, acme()).unwrap();
    let b = create_supplier(&mut table, acme()).unwrap();
    let c = create_supplier(&mut table, lines("Beta", "Beta AB", "SE", "SE9", "4690")).unwrap();
    assert!(a.id < b.id && b.id < c.id);
    assert_eq!((a.id, b.id, c.id), (1, 2, 3));
    // An identical second submission is a second record.
    assert_eq!(get_supplier(&table, b.id).unwrap().supplier, "Acme");
}

#[test]
fn total_suppliers_counts_rows() {
    let mut table: Table<SupplierDbRow> = Table::new();
    assert_eq!(total_suppliers(&table), 0);
    for name in ["A", "B", "C"] {
        create_supplier(&mut table, lines(name, name, "NO", "NO1", "0000")).unwrap();
    }
    assert_eq!(total_suppliers(&table), 3);
}

#[test]
fn unassigned_identity_is_not_found() {
    let mut table: Table<SupplierDbRow> = Table::new();
    assert_eq!(get_supplier(&table, 1), Err(ServiceError::NotFound));
    create_supplier(&mut table, acme()).unwrap();
    assert_eq!(get_supplier(&table, 0), Err(ServiceError::NotFound));
    assert_eq!(get_supplier(&table, 2), Err(ServiceError::NotFound));
    assert_eq!(get_supplier(&table, -5), Err(ServiceError::NotFound));
}

#[test]
fn list_keeps_creation_order() {
    let mut table: Table<SupplierDbRow> = Table::new();
    assert!(list_suppliers(&table).is_empty());
    create_supplier(&mut table, acme()).unwrap();
    create_supplier(&mut table, lines("Beta", "Beta AB", "SE", "SE9", "4690")).unwrap();
    let all = list_suppliers(&table);
    assert_eq!(all.len(), 2);
    assert_eq!((all[0].id, all[0].supplier.as_str()), (1, "Acme"));
    assert_eq!((all[1].id, all[1].supplier.as_str()), (2, "Beta"));
    assert_eq!(list_suppliers(&table), all);
}

#[test]
fn row_maps_to_response() {
    let row = SupplierDbRow {
        id: 7,
        supplier: "Acme".to_string(),
        supplier_name_original: "Acme AS".to_string(),
        supplier_country: "NO".to_string(),
        vat_id: "NO123".to_string(),
        nace: "4611".to_string(),
    };
    let resp = SupplierResponse::from(row);
    assert_eq!(resp, SupplierResponse::created(7, acme()));
}

#[test]
fn store_lookup_reports_not_found() {
    let table: Table<SupplierDbRow> = Table::new();
    assert_eq!(table.get_by_identity(3).err(), Some(StoreError::NotFound));
    assert_eq!(table.count(), 0);
}

#[test]
fn errors_map_to_statuses() {
    assert_eq!(ServiceError::Validation.status(), 400);
    assert_eq!(ServiceError::NotFound.status(), 404);
    assert_eq!(ServiceError::StoreFailure.status(), 500);
    assert_eq!(ServiceError::from(StoreError::NotFound), ServiceError::NotFound);
    assert_eq!(ServiceError::from(StoreError::Failure), ServiceError::StoreFailure);
}
