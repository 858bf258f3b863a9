//! The entity store: one table per entity kind, each assigning identities in
//! creation order, as an auto-incrementing primary key does.
use vstd::prelude::*;

use crate::error::{DecodeError, StoreError};
use crate::models::{
    created_transaction, dates_valid, stores_transaction, supplier_row, transaction_response,
    SupplierDbRow, SupplierLines, TransactionDbRow, TransactionLines, TransactionResponse,
};

verus! {

/// A stored row kind: it carries an identity and is assembled from the fields
/// that a submission carries.
pub trait Record: Sized {
    /// What a submission carries: the record without its identity.
    type Fields;

    spec fn key(&self) -> int;

    /// Whether the store can take a submission with these fields.
    spec fn admits(fields: Self::Fields) -> bool;

    /// Whether this row stores `fields` under identity `id`.
    spec fn assembled(&self, id: int, fields: Self::Fields) -> bool;

    fn identity(&self) -> (r: i64)
        ensures
            r as int == self.key(),
    ;

    fn assemble(id: i64, fields: &Self::Fields) -> (r: Self)
        requires
            Self::admits(*fields),
        ensures
            r.assembled(id as int, *fields),
            r.key() == id as int,
    ;

    fn duplicate(&self) -> (r: Self)
        ensures
            r == *self,
    ;
}

impl Record for SupplierDbRow {
    type Fields = SupplierLines;

    open spec fn key(&self) -> int {
        self.id as int
    }

    open spec fn admits(fields: SupplierLines) -> bool {
        true
    }

    open spec fn assembled(&self, id: int, fields: SupplierLines) -> bool {
        *self == supplier_row(id as i64, fields) && id == self.id
    }

    fn identity(&self) -> (r: i64) {
        self.id
    }

    fn assemble(id: i64, fields: &SupplierLines) -> (r: SupplierDbRow) {
        SupplierDbRow::from_lines(id, fields)
    }

    fn duplicate(&self) -> (r: SupplierDbRow) {
        SupplierDbRow::duplicate(self)
    }
}

impl Record for TransactionDbRow {
    type Fields = TransactionLines;

    open spec fn key(&self) -> int {
        self.id as int
    }

    open spec fn admits(fields: TransactionLines) -> bool {
        dates_valid(fields)
    }

    open spec fn assembled(&self, id: int, fields: TransactionLines) -> bool {
        &&& stores_transaction(*self, id, fields)
        &&& transaction_response(*self) == Ok::<TransactionResponse, DecodeError>(
            created_transaction(id as i64, fields),
        )
    }

    fn identity(&self) -> (r: i64) {
        self.id
    }

    fn assemble(id: i64, fields: &TransactionLines) -> (r: TransactionDbRow) {
        TransactionDbRow::from_lines(id, fields)
    }

    fn duplicate(&self) -> (r: TransactionDbRow) {
        TransactionDbRow::duplicate(self)
    }
}

/// The rows of one table in creation order, and the last identity given out
/// (0 before the first).
pub struct TableView<R> {
    pub rows: Seq<R>,
    pub last_id: int,
}

impl<R: Record> TableView<R> {
    /// Identities grow strictly in creation order, from 1 up to the last one
    /// given out, which an `i64` holds.
    pub open spec fn wf(self) -> bool {
        &&& 0 <= self.last_id <= i64::MAX
        &&& forall|i: int, j: int|
            0 <= i < j < self.rows.len() ==> #[trigger] self.rows[i].key()
                < #[trigger] self.rows[j].key()
        &&& forall|i: int| 0 <= i < self.rows.len() ==> 1 <= #[trigger] self.rows[i].key() <= self.last_id
    }
}

/// The row with identity `id`, looked for from the newest row back.
pub open spec fn find_row<R: Record>(rows: Seq<R>, id: int) -> Option<R>
    decreases rows.len(),
{
    if rows.len() == 0 {
        None
    } else if rows.last().key() == id {
        Some(rows.last())
    } else {
        find_row(rows.drop_last(), id)
    }
}

/// One table of the entity store.
pub struct Table<R> {
    rows: Vec<R>,
    last_id: i64,
}

impl<R: Record> View for Table<R> {
    type V = TableView<R>;

    closed spec fn view(&self) -> TableView<R> {
        TableView { rows: self.rows@, last_id: self.last_id as int }
    }
}

impl<R: Record> Table<R> {
    pub open spec fn wf(&self) -> bool {
        self@.wf()
    }

    /// An empty table that has given out no identity.
    pub fn new() -> (t: Table<R>)
        ensures
            t.wf(),
            t@.rows == Seq::<R>::empty(),
            t@.last_id == 0,
    {
        Table { rows: Vec::new(), last_id: 0 }
    }

    /// Stores a submission under the next identity and returns that identity.
    /// It fails, changing nothing, once every identity an `i64` holds is used.
    pub fn insert(&mut self, fields: &R::Fields) -> (r: Result<i64, StoreError>)
        requires
            old(self).wf(),
            R::admits(*fields),
        ensures
            final(self).wf(),
            r is Err <==> old(self)@.last_id == i64::MAX,
            match r {
                Ok(id) => {
                    &&& id == old(self)@.last_id + 1
                    &&& final(self)@.last_id == id
                    &&& final(self)@.rows.len() == old(self)@.rows.len() + 1
                    &&& final(self)@.rows.drop_last() == old(self)@.rows
                    &&& final(self)@.rows.last().assembled(id as int, *fields)
                    &&& final(self)@.rows.last().key() == id
                    &&& forall|i: int|
                        0 <= i < old(self)@.rows.len() ==> #[trigger] old(self)@.rows[i].key() < id
                },
                Err(e) => e == StoreError::Failure && final(self)@ == old(self)@,
            },
    {
        if self.last_id == i64::MAX {
            return Err(StoreError::Failure);
        }
        let id = self.last_id + 1;
        let row = R::assemble(id, fields);
        self.rows.push(row);
        self.last_id = id;
        assert(self@.rows.drop_last() =~= old(self)@.rows);
        Ok(id)
    }

    /// Every stored row, in creation order; the same order on every call.
    pub fn list_all(&self) -> (r: Vec<R>)
        ensures
            r@ == self@.rows,
    {
        let mut out: Vec<R> = Vec::new();
        let mut i: usize = 0;
        while i < self.rows.len()
            invariant
                i <= self.rows@.len(),
                out@ == self.rows@.take(i as int),
            decreases self.rows@.len() - i,
        {
            out.push(self.rows[i].duplicate());
            i = i + 1;
            assert(out@ =~= self.rows@.take(i as int));
        }
        assert(self.rows@.take(i as int) =~= self.rows@);
        out
    }

    /// The row with identity `id`, or NotFound where no row has it.
    pub fn get_by_identity(&self, id: i64) -> (r: Result<R, StoreError>)
        ensures
            r == match find_row(self@.rows, id as int) {
                Some(row) => Ok::<R, StoreError>(row),
                None => Err(StoreError::NotFound),
            },
    {
        let mut i: usize = self.rows.len();
        assert(self.rows@.take(i as int) =~= self.rows@);
        while i > 0
            invariant
                i <= self.rows@.len(),
                find_row(self.rows@, id as int) == find_row(self.rows@.take(i as int), id as int),
            decreases i,
        {
            let ghost before = self.rows@.take(i as int);
            assert(before.drop_last() =~= self.rows@.take(i - 1));
            if self.rows[i - 1].identity() == id {
                return Ok(self.rows[i - 1].duplicate());
            }
            i = i - 1;
        }
        Err(StoreError::NotFound)
    }

    /// How many rows the table holds.
    pub fn count(&self) -> (r: i64)
        requires
            self.wf(),
        ensures
            r as int == self@.rows.len(),
    {
        proof {
            lemma_rows_within_last_id(self@);
        }
        self.rows.len() as i64
    }
}

/// A well-formed table holds no more rows than identities given out.
pub proof fn lemma_rows_within_last_id<R: Record>(t: TableView<R>)
    requires
        t.wf(),
    ensures
        t.rows.len() <= t.last_id,
{
    assert forall|i: int| 0 <= i < t.rows.len() implies i + 1 <= #[trigger] t.rows[i].key() by {
        lemma_key_at_least_position(t, i);
    }
    if t.rows.len() > 0 {
        assert(t.rows.len() <= t.rows[t.rows.len() - 1].key());
    }
}

proof fn lemma_key_at_least_position<R: Record>(t: TableView<R>, i: int)
    requires
        t.wf(),
        0 <= i < t.rows.len(),
    ensures
        i + 1 <= t.rows[i].key(),
    decreases i,
{
    if i > 0 {
        lemma_key_at_least_position(t, i - 1);
        assert(t.rows[i - 1].key() < t.rows[i].key());
    }
}

/// The sum of the values of the rows, in ore.
pub open spec fn total_value(rows: Seq<TransactionDbRow>) -> int
    decreases rows.len(),
{
    if rows.len() == 0 {
        0
    } else {
        total_value(rows.drop_last()) + rows.last().value_ore
    }
}

impl Table<TransactionDbRow> {
    /// The sum of the stored values; 0 for an empty table.
    pub fn sum_of_values(&self) -> (r: i128)
        ensures
            r as int == total_value(self@.rows),
    {
        let n: usize = self.rows.len();
        let mut total: i128 = 0;
        let mut i: usize = 0;
        while i < n
            invariant
                n == self.rows@.len(),
                i <= n,
                total as int == total_value(self.rows@.take(i as int)),
                -(i as int) * 0x8000_0000_0000_0000 <= total as int <= (i as int)
                    * 0x8000_0000_0000_0000,
            decreases self.rows@.len() - i,
        {
            let v = self.rows[i].value_ore;
            proof {
                let n = i as int;
                assert(n + 1 <= usize::MAX);
                assert((n + 1) * 0x8000_0000_0000_0000 < 0x7fff_ffff_ffff_ffff_ffff_ffff_ffff_ffff)
                    by (nonlinear_arith)
                    requires
                        n + 1 <= 0xffff_ffff_ffff_ffff,
                ;
                assert(self.rows@.take(n + 1).drop_last() =~= self.rows@.take(n));
            }
            total = total + v as i128;
            i = i + 1;
        }
        assert(self.rows@.take(i as int) =~= self.rows@);
        total
    }
}

/// Two rows of a well-formed table never share an identity.
pub proof fn lemma_identities_unique<R: Record>(t: TableView<R>, i: int, j: int)
    requires
        t.wf(),
        0 <= i < t.rows.len(),
        0 <= j < t.rows.len(),
        i != j,
    ensures
        t.rows[i].key() != t.rows[j].key(),
{
    if i < j {
        assert(t.rows[i].key() < t.rows[j].key());
    } else {
        assert(t.rows[j].key() < t.rows[i].key());
    }
}

/// Where no row has identity `id`, looking it up finds nothing.
pub proof fn lemma_find_row_absent<R: Record>(rows: Seq<R>, id: int)
    requires
        forall|i: int| 0 <= i < rows.len() ==> #[trigger] rows[i].key() != id,
    ensures
        find_row(rows, id) is None,
    decreases rows.len(),
{
    if rows.len() > 0 {
        assert(rows.last().key() != id);
        let rest = rows.drop_last();
        assert forall|i: int| 0 <= i < rest.len() implies #[trigger] rest[i].key() != id by {
            assert(rest[i] == rows[i]);
        }
        lemma_find_row_absent(rest, id);
    }
}

/// An identity that a well-formed table never gave out (below 1, or past the
/// last one) is not found: the lookup yields no row at all.
pub proof fn lemma_unassigned_identity_not_found<R: Record>(t: TableView<R>, id: int)
    requires
        t.wf(),
        id < 1 || id > t.last_id,
    ensures
        find_row(t.rows, id) is None,
{
    assert forall|i: int| 0 <= i < t.rows.len() implies #[trigger] t.rows[i].key() != id by {
        assert(1 <= t.rows[i].key() <= t.last_id);
    }
    lemma_find_row_absent(t.rows, id);
}

/// A row stored last is what a lookup of its identity yields.
pub proof fn lemma_newest_row_found<R: Record>(rows: Seq<R>, row: R)
    ensures
        find_row(rows.push(row), row.key()) == Some(row),
{
    assert(rows.push(row).last() == row);
}

/// The two tables of the store, one per entity kind.
pub struct EntityStore {
    pub suppliers: Table<SupplierDbRow>,
    pub transactions: Table<TransactionDbRow>,
}

impl EntityStore {
    pub open spec fn wf(&self) -> bool {
        self.suppliers.wf() && self.transactions.wf()
    }

    pub fn new() -> (s: EntityStore)
        ensures
            s.wf(),
            s.suppliers@.rows.len() == 0,
            s.suppliers@.last_id == 0,
            s.transactions@.rows.len() == 0,
            s.transactions@.last_id == 0,
    {
        EntityStore { suppliers: Table::new(), transactions: Table::new() }
    }
}

} // verus!
