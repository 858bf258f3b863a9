//! The resource services, one per entity kind, and the aggregate service.
//! Each operation is one request against the store handed to it.
use vstd::prelude::*;

use crate::error::{DecodeError, ServiceError};
use crate::models::{
    created_supplier, created_transaction, dates_valid, stores_transaction, supplier_response,
    supplier_row, transaction_response, SupplierDbRow, SupplierLines, SupplierResponse,
    TransactionDbRow, TransactionLines, TransactionResponse,
};
use crate::store::{
    find_row, lemma_newest_row_found, lemma_unassigned_identity_not_found, total_value, Record, Table,
    TableView,
};

verus! {

/// What a supplier lookup answers: the stored supplier, or NotFound.
pub open spec fn supplier_lookup(rows: Seq<SupplierDbRow>, id: int) -> Result<
    SupplierResponse,
    ServiceError,
> {
    match find_row(rows, id) {
        Some(row) => Ok(supplier_response(row)),
        None => Err(ServiceError::NotFound),
    }
}

/// What a transaction lookup answers: the stored transaction with its dates
/// decoded, NotFound, or a Validation error for a stored date that does not decode.
pub open spec fn transaction_lookup(rows: Seq<TransactionDbRow>, id: int) -> Result<
    TransactionResponse,
    ServiceError,
> {
    match find_row(rows, id) {
        Some(row) => match transaction_response(row) {
            Ok(resp) => Ok(resp),
            Err(_) => Err(ServiceError::Validation),
        },
        None => Err(ServiceError::NotFound),
    }
}

/// Creates a supplier: the store gives it the next identity, and the answer is
/// what was submitted with that identity, not a second read of the store.
pub fn create_supplier(table: &mut Table<SupplierDbRow>, payload: SupplierLines) -> (r: Result<
    SupplierResponse,
    ServiceError,
>)
    requires
        old(table).wf(),
    ensures
        final(table).wf(),
        r is Err <==> old(table)@.last_id == i64::MAX,
        match r {
            Ok(resp) => {
                &&& resp.id == old(table)@.last_id + 1
                &&& resp == created_supplier(resp.id, payload)
                &&& forall|i: int|
                    0 <= i < old(table)@.rows.len() ==> #[trigger] old(table)@.rows[i].id
                        < resp.id
                &&& final(table)@.rows == old(table)@.rows.push(supplier_row(resp.id, payload))
                &&& final(table)@.last_id == resp.id
                &&& supplier_lookup(final(table)@.rows, resp.id as int) == Ok::<
                    SupplierResponse,
                    ServiceError,
                >(resp)
            },
            Err(e) => e == ServiceError::StoreFailure && final(table)@ == old(table)@,
        },
{
    match table.insert(&payload) {
        Ok(id) => {
            proof {
                let rows = final(table)@.rows;
                assert(rows =~= old(table)@.rows.push(supplier_row(id, payload)));
                lemma_newest_row_found(old(table)@.rows, supplier_row(id, payload));
                assert forall|i: int| 0 <= i < old(table)@.rows.len() implies #[trigger] old(
                    table,
                )@.rows[i].id < id by {
                    assert(old(table)@.rows[i].key() < id);
                }
            }
            Ok(SupplierResponse::created(id, payload))
        },
        Err(e) => Err(ServiceError::from(e)),
    }
}

/// Every stored supplier, in the store's order.
pub fn list_suppliers(table: &Table<SupplierDbRow>) -> (r: Vec<SupplierResponse>)
    ensures
        r@.len() == table@.rows.len(),
        forall|i: int| 0 <= i < r@.len() ==> r@[i] == supplier_response(#[trigger] table@.rows[i]),
{
    let rows = table.list_all();
    let mut out: Vec<SupplierResponse> = Vec::new();
    let mut i: usize = 0;
    while i < rows.len()
        invariant
            rows@ == table@.rows,
            i <= rows@.len(),
            out@.len() == i,
            forall|k: int| 0 <= k < i ==> out@[k] == supplier_response(#[trigger] rows@[k]),
        decreases rows@.len() - i,
    {
        out.push(SupplierResponse::from(rows[i].duplicate()));
        i = i + 1;
    }
    out
}

/// The supplier with identity `id`, or NotFound.
pub fn get_supplier(table: &Table<SupplierDbRow>, id: i64) -> (r: Result<
    SupplierResponse,
    ServiceError,
>)
    ensures
        r == supplier_lookup(table@.rows, id as int),
{
    match table.get_by_identity(id) {
        Ok(row) => Ok(SupplierResponse::from(row)),
        Err(e) => Err(ServiceError::from(e)),
    }
}

/// Creates a transaction. Dates that cannot be written as RFC 3339 text are a
/// Validation error; otherwise the store gives the next identity, the dates
/// are stored as text, and the answer is what was submitted with that identity.
pub fn create_transaction(table: &mut Table<TransactionDbRow>, payload: TransactionLines) -> (r:
    Result<TransactionResponse, ServiceError>)
    requires
        old(table).wf(),
    ensures
        final(table).wf(),
        r == Err::<TransactionResponse, ServiceError>(ServiceError::Validation) <==> !dates_valid(
            payload,
        ),
        r == Err::<TransactionResponse, ServiceError>(ServiceError::StoreFailure) <==> (dates_valid(
            payload,
        ) && old(table)@.last_id == i64::MAX),
        r is Ok <==> (dates_valid(payload) && old(table)@.last_id < i64::MAX),
        r is Err ==> final(table)@ == old(table)@,
        match r {
            Ok(resp) => {
                &&& resp.id == old(table)@.last_id + 1
                &&& resp == created_transaction(resp.id, payload)
                &&& forall|i: int|
                    0 <= i < old(table)@.rows.len() ==> #[trigger] old(table)@.rows[i].id
                        < resp.id
                &&& final(table)@.last_id == resp.id
                &&& final(table)@.rows.drop_last() == old(table)@.rows
                &&& final(table)@.rows.len() == old(table)@.rows.len() + 1
                &&& stores_transaction(final(table)@.rows.last(), resp.id as int, payload)
                &&& transaction_lookup(final(table)@.rows, resp.id as int) == Ok::<
                    TransactionResponse,
                    ServiceError,
                >(resp)
            },
            Err(_) => true,
        },
{
    if !payload.dates_valid() {
        return Err(ServiceError::Validation);
    }
    match table.insert(&payload) {
        Ok(id) => {
            proof {
                let rows = final(table)@.rows;
                assert(rows =~= old(table)@.rows.push(rows.last()));
                lemma_newest_row_found(old(table)@.rows, rows.last());
                assert forall|i: int| 0 <= i < old(table)@.rows.len() implies #[trigger] old(
                    table,
                )@.rows[i].id < id by {
                    assert(old(table)@.rows[i].key() < id);
                }
            }
            Ok(TransactionResponse::created(id, payload))
        },
        Err(e) => Err(ServiceError::from(e)),
    }
}

/// Every stored transaction with its dates decoded, in the store's order; a
/// Validation error where a stored date does not decode.
pub fn list_transactions(table: &Table<TransactionDbRow>) -> (r: Result<
    Vec<TransactionResponse>,
    ServiceError,
>)
    ensures
        r is Ok <==> forall|i: int|
            0 <= i < table@.rows.len() ==> (#[trigger] transaction_response(table@.rows[i])) is Ok,
        r is Err ==> r == Err::<Vec<TransactionResponse>, ServiceError>(ServiceError::Validation),
        match r {
            Ok(v) => {
                &&& v@.len() == table@.rows.len()
                &&& forall|i: int|
                    0 <= i < v@.len() ==> Ok::<TransactionResponse, DecodeError>(v@[i])
                        == #[trigger] transaction_response(table@.rows[i])
            },
            Err(_) => true,
        },
{
    let rows = table.list_all();
    let mut out: Vec<TransactionResponse> = Vec::new();
    let mut i: usize = 0;
    while i < rows.len()
        invariant
            rows@ == table@.rows,
            i <= rows@.len(),
            out@.len() == i,
            forall|k: int|
                0 <= k < i ==> Ok::<TransactionResponse, DecodeError>(out@[k])
                    == #[trigger] transaction_response(rows@[k]),
        decreases rows@.len() - i,
    {
        match rows[i].duplicate().into_response() {
            Ok(resp) => out.push(resp),
            Err(_) => return Err(ServiceError::Validation),
        }
        i = i + 1;
    }
    Ok(out)
}

/// The transaction with identity `id`, its dates decoded; NotFound, or a
/// Validation error where a stored date does not decode.
pub fn get_transaction(table: &Table<TransactionDbRow>, id: i64) -> (r: Result<
    TransactionResponse,
    ServiceError,
>)
    ensures
        r == transaction_lookup(table@.rows, id as int),
{
    match table.get_by_identity(id) {
        Ok(row) => match row.into_response() {
            Ok(resp) => Ok(resp),
            Err(_) => Err(ServiceError::Validation),
        },
        Err(e) => Err(ServiceError::from(e)),
    }
}

/// The sum of all transaction values, in ore; 0 when there are none.
pub fn total_spent(table: &Table<TransactionDbRow>) -> (r: i128)
    ensures
        r as int == total_value(table@.rows),
{
    table.sum_of_values()
}

/// How many suppliers are stored; 0 when there are none.
pub fn total_suppliers(table: &Table<SupplierDbRow>) -> (r: i64)
    requires
        table.wf(),
    ensures
        r as int == table@.rows.len(),
{
    table.count()
}

/// Reading a supplier back after creating it: the lookup of the identity that
/// creation assigned reports exactly the submitted fields with that identity.
pub proof fn lemma_get_after_create_supplier(t: TableView<SupplierDbRow>, payload: SupplierLines)
    requires
        t.wf(),
        t.last_id < i64::MAX,
    ensures
        supplier_lookup(
            t.rows.push(supplier_row((t.last_id + 1) as i64, payload)),
            t.last_id + 1,
        ) == Ok::<SupplierResponse, ServiceError>(
            created_supplier((t.last_id + 1) as i64, payload),
        ),
{
    let id = (t.last_id + 1) as i64;
    lemma_newest_row_found(t.rows, supplier_row(id, payload));
}

/// Reading a transaction back after creating it: the lookup of the identity
/// that creation assigned reports exactly the submitted fields, dates
/// included, with that identity.
pub proof fn lemma_get_after_create_transaction(
    t: TableView<TransactionDbRow>,
    payload: TransactionLines,
    row: TransactionDbRow,
)
    requires
        t.wf(),
        t.last_id < i64::MAX,
        row.assembled(t.last_id + 1, payload),
    ensures
        transaction_lookup(t.rows.push(row), t.last_id + 1) == Ok::<
            TransactionResponse,
            ServiceError,
        >(created_transaction((t.last_id + 1) as i64, payload)),
{
    lemma_newest_row_found(t.rows, row);
}

/// A supplier identity that the store never assigned is NotFound.
pub proof fn lemma_unassigned_supplier_not_found(t: TableView<SupplierDbRow>, id: int)
    requires
        t.wf(),
        id < 1 || id > t.last_id,
    ensures
        supplier_lookup(t.rows, id) == Err::<SupplierResponse, ServiceError>(ServiceError::NotFound),
{
    lemma_unassigned_identity_not_found(t, id);
}

/// A transaction identity that the store never assigned is NotFound.
pub proof fn lemma_unassigned_transaction_not_found(t: TableView<TransactionDbRow>, id: int)
    requires
        t.wf(),
        id < 1 || id > t.last_id,
    ensures
        transaction_lookup(t.rows, id) == Err::<TransactionResponse, ServiceError>(
            ServiceError::NotFound,
        ),
{
    lemma_unassigned_identity_not_found(t, id);
}

} // verus!
