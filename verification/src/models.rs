//! The record of what was notarized, and the rule that no content hash is
//! recorded twice.

use vstd::prelude::*;

verus! {

/// What kind of fault a database reports, as far as the service tells them
/// apart.
#[derive(Debug, Clone, Copy, PartialEq, Eq, Structural)]
pub enum DatabaseErrorKind {
    UniqueViolation,
    ForeignKeyViolation,
    UnableToSendCommand,
    SerializationFailure,
    Unknown,
}

/// A fault of the storage layer: one that the database raised, with its
/// kind and message, or any other, with its text.
#[derive(Debug, Clone, PartialEq, Eq)]
pub enum DieselErr {
    DatabaseError(DatabaseErrorKind, String),
    Other(String),
}

/// Why a record was not stored.
#[derive(Debug, Clone, PartialEq, Eq)]
pub enum ModelErr {
    /// The content hash is already recorded.
    AlreadyExists(String),
    /// Any other fault of the storage layer.
    OtherDieselErr(String),
}

impl ModelErr {
    /// A violated uniqueness rule is a duplicate submission; every other
    /// fault is the storage layer's own.
    pub fn from(e: DieselErr) -> (res: ModelErr)
        ensures
            res == match e {
                DieselErr::DatabaseError(DatabaseErrorKind::UniqueViolation, info) => ModelErr::AlreadyExists(info),
                DieselErr::DatabaseError(_, info) => ModelErr::OtherDieselErr(info),
                DieselErr::Other(text) => ModelErr::OtherDieselErr(text),
            },
    {
        match e {
            DieselErr::DatabaseError(kind, info) => match kind {
                DatabaseErrorKind::UniqueViolation => ModelErr::AlreadyExists(info),
                _ => ModelErr::OtherDieselErr(info),
            },
            DieselErr::Other(text) => ModelErr::OtherDieselErr(text),
        }
    }
}

/// A stored record.
#[derive(Debug, Clone, PartialEq, Eq)]
pub struct SignedData {
    pub id: i64,
    pub created_at: String,
    pub data_hash_b64: String,
}

/// A record to store.
#[derive(Debug, Clone, PartialEq, Eq)]
pub struct NewSignedData {
    pub data_hash_b64: String,
    pub created_at: Option<String>,
}

/// The records of one table, held in memory under the table's two rules:
/// ids grow by one from 1, and no content hash occurs twice. It holds
/// fewer records than an id can count.
pub struct SignedDataTable {
    rows: Vec<SignedData>,
}

impl View for SignedDataTable {
    type V = Seq<SignedData>;

    closed spec fn view(&self) -> Seq<SignedData> {
        self.rows@
    }
}

/// No two records of `rows` hold the same content hash.
pub open spec fn distinct_hashes(rows: Seq<SignedData>) -> bool {
    forall|i: int, j: int|
        0 <= i < j < rows.len() ==> (#[trigger] rows[i]).data_hash_b64@ != (#[trigger] rows[j]).data_hash_b64@
}

/// The two rules of the table.
pub open spec fn table_rules(rows: Seq<SignedData>) -> bool {
    &&& rows.len() < i64::MAX
    &&& forall|i: int| 0 <= i < rows.len() ==> (#[trigger] rows[i]).id == i + 1
    &&& distinct_hashes(rows)
}

/// What `insert` makes of the records `before` and the record `new`: a hash
/// that is recorded is refused by name and the records stay as they were;
/// any other is stored behind them, under the next id, with its time or the
/// empty text for none.
pub open spec fn inserted(
    before: Seq<SignedData>,
    new: NewSignedData,
    after: Seq<SignedData>,
    res: Result<SignedData, ModelErr>,
) -> bool {
    if recorded(before, new.data_hash_b64@) {
        &&& res is Err
        &&& res->Err_0 == ModelErr::AlreadyExists(new.data_hash_b64)
        &&& after == before
    } else {
        &&& res is Ok
        &&& res->Ok_0.id == before.len() + 1
        &&& res->Ok_0.data_hash_b64@ == new.data_hash_b64@
        &&& res->Ok_0.created_at@ == match new.created_at {
            Some(at) => at@,
            None => Seq::<char>::empty(),
        }
        &&& after == before.push(res->Ok_0)
    }
}

/// Whether some record of `rows` holds `hash`.
pub open spec fn recorded(rows: Seq<SignedData>, hash: Seq<char>) -> bool {
    exists|i: int| 0 <= i < rows.len() && (#[trigger] rows[i]).data_hash_b64@ == hash
}

impl SignedDataTable {
    /// The table keeps its two rules.
    pub open spec fn wf(&self) -> bool {
        table_rules(self@)
    }

    /// An empty table.
    pub fn new() -> (table: Self)
        ensures
            table.wf(),
            table@.len() == 0,
    {
        SignedDataTable { rows: Vec::new() }
    }

    /// How many records the table holds.
    pub fn len(&self) -> (n: usize)
        ensures
            n == self@.len(),
    {
        self.rows.len()
    }

    /// Whether `hash` is recorded.
    pub fn contains(&self, hash: &String) -> (found: bool)
        ensures
            found == recorded(self@, hash@),
    {
        let mut i: usize = 0;
        while i < self.rows.len()
            invariant
                i <= self.rows@.len(),
                forall|k: int| 0 <= k < i ==> (#[trigger] self.rows@[k]).data_hash_b64@ != hash@,
            decreases self.rows@.len() - i,
        {
            if self.rows[i].data_hash_b64 == *hash {
                return true;
            }
            i = i + 1;
        }
        false
    }
}

impl NewSignedData {
    /// Stores the record unless its content hash is recorded already, and
    /// names the hash where it is. The new record gets the next id; one
    /// without a time of its own gets the empty text for it.
    pub fn insert(self, table: &mut SignedDataTable) -> (res: Result<SignedData, ModelErr>)
        requires
            old(table).wf(),
            old(table)@.len() + 1 < i64::MAX,
        ensures
            final(table).wf(),
            inserted(old(table)@, self, final(table)@, res),
            res is Ok ==> recorded(final(table)@, self.data_hash_b64@),
    {
        if table.contains(&self.data_hash_b64) {
            return Err(ModelErr::AlreadyExists(self.data_hash_b64));
        }
        let n: usize = table.rows.len();
        let id: i64 = (n as i64) + 1;
        let created_at = match self.created_at {
            Some(t) => t,
            None => String::new(),
        };
        let kept = SignedData {
            id,
            created_at: created_at.clone(),
            data_hash_b64: self.data_hash_b64.clone(),
        };
        let row = SignedData { id, created_at, data_hash_b64: self.data_hash_b64 };
        table.rows.push(row);
        proof {
            lemma_insert_keeps_hashes_distinct(old(table)@, self, final(table)@, Ok(kept));
            assert(final(table)@[n as int].data_hash_b64@ == self.data_hash_b64@);
        }
        Ok(kept)
    }
}

/// Whatever `insert` does, no two records share a content hash after it
/// where none did before.
pub proof fn lemma_insert_keeps_hashes_distinct(
    before: Seq<SignedData>,
    new: NewSignedData,
    after: Seq<SignedData>,
    res: Result<SignedData, ModelErr>,
)
    requires
        distinct_hashes(before),
        inserted(before, new, after, res),
    ensures
        distinct_hashes(after),
        forall|hash: Seq<char>| recorded(before, hash) ==> recorded(after, hash),
{
    if !recorded(before, new.data_hash_b64@) {
        let row = res->Ok_0;
        assert forall|i: int, j: int| 0 <= i < j < after.len() implies (#[trigger] after[i]).data_hash_b64@ != (
        #[trigger] after[j]).data_hash_b64@ by {
            if j == before.len() {
                assert(before[i].data_hash_b64@ != row.data_hash_b64@);
            } else {
                assert(before[i].data_hash_b64@ != before[j].data_hash_b64@);
            }
        }
        assert forall|hash: Seq<char>| recorded(before, hash) implies recorded(after, hash) by {
            let i = choose|i: int| 0 <= i < before.len() && (#[trigger] before[i]).data_hash_b64@ == hash;
            assert(after[i].data_hash_b64@ == hash);
        }
    }
}

/// A content hash is stored at most once. The first insert of a hash that
/// is not recorded stores it; a second insert of the same hash, with
/// whatever time, is refused as already there and leaves the records as the
/// first left them: one more than before, one of them with that hash.
pub proof fn lemma_second_insert_is_refused(
    before: Seq<SignedData>,
    first: NewSignedData,
    between: Seq<SignedData>,
    stored: Result<SignedData, ModelErr>,
    second: NewSignedData,
    after: Seq<SignedData>,
    refused: Result<SignedData, ModelErr>,
)
    requires
        !recorded(before, first.data_hash_b64@),
        second.data_hash_b64@ == first.data_hash_b64@,
        inserted(before, first, between, stored),
        inserted(between, second, after, refused),
    ensures
        stored is Ok,
        refused is Err,
        refused->Err_0 is AlreadyExists,
        after == between,
        after.len() == before.len() + 1,
        recorded(after, first.data_hash_b64@),
{
    assert(between[before.len() as int].data_hash_b64@ == first.data_hash_b64@);
}

} // verus!
