//! The records as they arrive, as they are stored, and as they are answered.
use vstd::prelude::*;

use crate::codec::{
    all_valid, decode_optional_instant, decoded, encode_optional_instant, encoded, Instant,
};
use crate::error::DecodeError;

verus! {

/// A supplier as submitted: every field but the identity.
#[derive(Debug, Clone, PartialEq, Eq)]
pub struct SupplierLines {
    pub supplier: String,
    pub supplier_name_original: String,
    pub supplier_country: String,
    pub vat_id: String,
    pub nace: String,
}

/// A supplier as stored, under the identity the store gave it.
#[derive(Debug, Clone, PartialEq, Eq)]
pub struct SupplierDbRow {
    pub id: i64,
    pub supplier: String,
    pub supplier_name_original: String,
    pub supplier_country: String,
    pub vat_id: String,
    pub nace: String,
}

/// A supplier as answered to a client.
#[derive(Debug, Clone, PartialEq, Eq)]
pub struct SupplierResponse {
    pub id: i64,
    pub supplier: String,
    pub supplier_name_original: String,
    pub supplier_country: String,
    pub vat_id: String,
    pub nace: String,
}

/// A transaction as submitted. The value is a whole number of ore, hundredths
/// of a krone; the supplier is a name, not a link to a supplier record.
#[derive(Debug, Clone, PartialEq, Eq)]
pub struct TransactionLines {
    pub invoice_number: String,
    pub supplier: String,
    pub invoice_date: Option<Instant>,
    pub due_date: Option<Instant>,
    pub value_ore: i64,
    pub spend_category_l1: String,
    pub spend_category_l2: String,
    pub spend_category_l3: String,
    pub spend_category_l4: String,
}

/// A transaction as stored: its dates are held as canonical text.
#[derive(Debug, Clone, PartialEq, Eq)]
pub struct TransactionDbRow {
    pub id: i64,
    pub invoice_number: String,
    pub supplier: String,
    pub invoice_date: Option<String>,
    pub due_date: Option<String>,
    pub value_ore: i64,
    pub spend_category_l1: String,
    pub spend_category_l2: String,
    pub spend_category_l3: String,
    pub spend_category_l4: String,
}

/// A transaction as answered to a client.
#[derive(Debug, Clone, PartialEq, Eq)]
pub struct TransactionResponse {
    pub id: i64,
    pub invoice_number: String,
    pub supplier: String,
    pub invoice_date: Option<Instant>,
    pub due_date: Option<Instant>,
    pub value_ore: i64,
    pub spend_category_l1: String,
    pub spend_category_l2: String,
    pub spend_category_l3: String,
    pub spend_category_l4: String,
}

/// The row that stores a submitted supplier under identity `id`.
pub open spec fn supplier_row(id: i64, p: SupplierLines) -> SupplierDbRow {
    SupplierDbRow {
        id,
        supplier: p.supplier,
        supplier_name_original: p.supplier_name_original,
        supplier_country: p.supplier_country,
        vat_id: p.vat_id,
        nace: p.nace,
    }
}

/// The answer to a supplier submission: what was submitted, with its identity.
pub open spec fn created_supplier(id: i64, p: SupplierLines) -> SupplierResponse {
    SupplierResponse {
        id,
        supplier: p.supplier,
        supplier_name_original: p.supplier_name_original,
        supplier_country: p.supplier_country,
        vat_id: p.vat_id,
        nace: p.nace,
    }
}

/// The answer that a stored supplier row gives.
pub open spec fn supplier_response(row: SupplierDbRow) -> SupplierResponse {
    SupplierResponse {
        id: row.id,
        supplier: row.supplier,
        supplier_name_original: row.supplier_name_original,
        supplier_country: row.supplier_country,
        vat_id: row.vat_id,
        nace: row.nace,
    }
}

/// Whether `row` stores the submitted transaction `p` under identity `id`,
/// its dates encoded as canonical text.
pub open spec fn stores_transaction(row: TransactionDbRow, id: int, p: TransactionLines) -> bool {
    &&& row.id == id
    &&& row.invoice_number == p.invoice_number
    &&& row.supplier == p.supplier
    &&& row.invoice_date.deep_view() == encoded(p.invoice_date)
    &&& row.due_date.deep_view() == encoded(p.due_date)
    &&& row.value_ore == p.value_ore
    &&& row.spend_category_l1 == p.spend_category_l1
    &&& row.spend_category_l2 == p.spend_category_l2
    &&& row.spend_category_l3 == p.spend_category_l3
    &&& row.spend_category_l4 == p.spend_category_l4
}

/// Whether the dates of a submitted transaction can be stored as text.
pub open spec fn dates_valid(p: TransactionLines) -> bool {
    all_valid(p.invoice_date) && all_valid(p.due_date)
}

/// The answer to a transaction submission: what was submitted, with its identity.
pub open spec fn created_transaction(id: i64, p: TransactionLines) -> TransactionResponse {
    TransactionResponse {
        id,
        invoice_number: p.invoice_number,
        supplier: p.supplier,
        invoice_date: p.invoice_date,
        due_date: p.due_date,
        value_ore: p.value_ore,
        spend_category_l1: p.spend_category_l1,
        spend_category_l2: p.spend_category_l2,
        spend_category_l3: p.spend_category_l3,
        spend_category_l4: p.spend_category_l4,
    }
}

/// The answer that a stored transaction row gives: its dates decoded, or the
/// first date that does not decode.
pub open spec fn transaction_response(row: TransactionDbRow) -> Result<
    TransactionResponse,
    DecodeError,
> {
    match decoded(row.invoice_date.deep_view()) {
        Err(e) => Err(e),
        Ok(invoice_date) => match decoded(row.due_date.deep_view()) {
            Err(e) => Err(e),
            Ok(due_date) => Ok(
                TransactionResponse {
                    id: row.id,
                    invoice_number: row.invoice_number,
                    supplier: row.supplier,
                    invoice_date,
                    due_date,
                    value_ore: row.value_ore,
                    spend_category_l1: row.spend_category_l1,
                    spend_category_l2: row.spend_category_l2,
                    spend_category_l3: row.spend_category_l3,
                    spend_category_l4: row.spend_category_l4,
                },
            ),
        },
    }
}

fn copy_text(s: &Option<String>) -> (r: Option<String>)
    ensures
        r == *s,
{
    match s {
        Some(s) => Some(s.clone()),
        None => None,
    }
}

impl From<SupplierDbRow> for SupplierResponse {
    fn from(row: SupplierDbRow) -> (r: SupplierResponse)
        ensures
            r == supplier_response(row),
    {
        SupplierResponse {
            id: row.id,
            supplier: row.supplier,
            supplier_name_original: row.supplier_name_original,
            supplier_country: row.supplier_country,
            vat_id: row.vat_id,
            nace: row.nace,
        }
    }
}

impl vstd::std_specs::convert::FromSpecImpl<SupplierDbRow> for SupplierResponse {
    open spec fn obeys_from_spec() -> bool {
        true
    }

    open spec fn from_spec(row: SupplierDbRow) -> SupplierResponse {
        supplier_response(row)
    }
}

impl SupplierResponse {
    /// The answer to a submission: exactly the submitted fields, merged with
    /// the identity the store assigned.
    pub fn created(id: i64, payload: SupplierLines) -> (r: SupplierResponse)
        ensures
            r == created_supplier(id, payload),
    {
        SupplierResponse {
            id,
            supplier: payload.supplier,
            supplier_name_original: payload.supplier_name_original,
            supplier_country: payload.supplier_country,
            vat_id: payload.vat_id,
            nace: payload.nace,
        }
    }
}

impl SupplierDbRow {
    pub fn from_lines(id: i64, p: &SupplierLines) -> (r: SupplierDbRow)
        ensures
            r == supplier_row(id, *p),
    {
        SupplierDbRow {
            id,
            supplier: p.supplier.clone(),
            supplier_name_original: p.supplier_name_original.clone(),
            supplier_country: p.supplier_country.clone(),
            vat_id: p.vat_id.clone(),
            nace: p.nace.clone(),
        }
    }

    pub fn duplicate(&self) -> (r: SupplierDbRow)
        ensures
            r == *self,
    {
        SupplierDbRow {
            id: self.id,
            supplier: self.supplier.clone(),
            supplier_name_original: self.supplier_name_original.clone(),
            supplier_country: self.supplier_country.clone(),
            vat_id: self.vat_id.clone(),
            nace: self.nace.clone(),
        }
    }
}

impl TransactionLines {
    pub fn dates_valid(&self) -> (r: bool)
        ensures
            r == dates_valid(*self),
    {
        let invoice_ok = match &self.invoice_date {
            Some(t) => t.valid(),
            None => true,
        };
        let due_ok = match &self.due_date {
            Some(t) => t.valid(),
            None => true,
        };
        invoice_ok && due_ok
    }
}

impl TransactionResponse {
    /// The answer to a submission: exactly the submitted fields, merged with
    /// the identity the store assigned.
    pub fn created(id: i64, payload: TransactionLines) -> (r: TransactionResponse)
        ensures
            r == created_transaction(id, payload),
    {
        TransactionResponse {
            id,
            invoice_number: payload.invoice_number,
            supplier: payload.supplier,
            invoice_date: payload.invoice_date,
            due_date: payload.due_date,
            value_ore: payload.value_ore,
            spend_category_l1: payload.spend_category_l1,
            spend_category_l2: payload.spend_category_l2,
            spend_category_l3: payload.spend_category_l3,
            spend_category_l4: payload.spend_category_l4,
        }
    }
}

impl TransactionDbRow {
    /// The row that stores a submitted transaction under identity `id`; its
    /// stored dates decode to the submitted ones.
    pub fn from_lines(id: i64, p: &TransactionLines) -> (r: TransactionDbRow)
        requires
            dates_valid(*p),
        ensures
            stores_transaction(r, id as int, *p),
            transaction_response(r) == Ok::<TransactionResponse, DecodeError>(
                created_transaction(id, *p),
            ),
    {
        TransactionDbRow {
            id,
            invoice_number: p.invoice_number.clone(),
            supplier: p.supplier.clone(),
            invoice_date: encode_optional_instant(p.invoice_date),
            due_date: encode_optional_instant(p.due_date),
            value_ore: p.value_ore,
            spend_category_l1: p.spend_category_l1.clone(),
            spend_category_l2: p.spend_category_l2.clone(),
            spend_category_l3: p.spend_category_l3.clone(),
            spend_category_l4: p.spend_category_l4.clone(),
        }
    }

    pub fn duplicate(&self) -> (r: TransactionDbRow)
        ensures
            r == *self,
    {
        TransactionDbRow {
            id: self.id,
            invoice_number: self.invoice_number.clone(),
            supplier: self.supplier.clone(),
            invoice_date: copy_text(&self.invoice_date),
            due_date: copy_text(&self.due_date),
            value_ore: self.value_ore,
            spend_category_l1: self.spend_category_l1.clone(),
            spend_category_l2: self.spend_category_l2.clone(),
            spend_category_l3: self.spend_category_l3.clone(),
            spend_category_l4: self.spend_category_l4.clone(),
        }
    }

    /// The answer that this row gives: its stored dates decoded. A stored date
    /// text that does not decode is an error, not an absent date.
    pub fn into_response(self) -> (r: Result<TransactionResponse, DecodeError>)
        ensures
            r == transaction_response(self),
    {
        let invoice_date = match decode_optional_instant(&self.invoice_date) {
            Ok(t) => t,
            Err(e) => return Err(e),
        };
        let due_date = match decode_optional_instant(&self.due_date) {
            Ok(t) => t,
            Err(e) => return Err(e),
        };
        Ok(
            TransactionResponse {
                id: self.id,
                invoice_number: self.invoice_number,
                supplier: self.supplier,
                invoice_date,
                due_date,
                value_ore: self.value_ore,
                spend_category_l1: self.spend_category_l1,
                spend_category_l2: self.spend_category_l2,
                spend_category_l3: self.spend_category_l3,
                spend_category_l4: self.spend_category_l4,
            },
        )
    }
}

} // verus!
