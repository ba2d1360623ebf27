use vstd::prelude::*;
use crate::message::{Message, MessageModel};

verus! {

/// Model of a stored row: id, text and importance flag.
pub type StoredModel = (int, Seq<char>, Option<bool>);

/// A message as the store holds it, with the id the store gave it.
#[derive(Debug)]
pub struct StoredMessage {
    pub id: i64,
    pub message: String,
    pub important: Option<bool>,
}

impl View for StoredMessage {
    type V = StoredModel;

    open spec fn view(&self) -> StoredModel {
        (self.id as int, self.message@, self.important)
    }
}

impl StoredMessage {
    /// A copy of this row.
    pub fn duplicate(&self) -> (r: StoredMessage)
        ensures
            r@ == self@,
    {
        StoredMessage { id: self.id, message: self.message.clone(), important: self.important }
    }
}

/// Why a store operation failed.
#[derive(Debug)]
pub enum StoreError {
    /// No row has the requested id.
    NotFound,
    /// The storage could not carry out the request; the text says why.
    Storage(String),
}

/// Text that a page shows for a lookup that found no row.
pub open spec fn not_found_text() -> Seq<char> {
    "no rows returned by a query that expected to return at least one row"@
}

/// Text that a page shows for an error.
pub open spec fn error_text(e: StoreError) -> Seq<char> {
    match e {
        StoreError::NotFound => not_found_text(),
        StoreError::Storage(s) => s@,
    }
}

impl StoreError {
    /// The error as text.
    pub fn to_string(&self) -> (r: String)
        ensures
            r@ == error_text(*self),
    {
        match self {
            StoreError::NotFound => {
                let r = String::from_str(
                    "no rows returned by a query that expected to return at least one row",
                );
                proof {
                    reveal_strlit(
                        "no rows returned by a query that expected to return at least one row",
                    );
                }
                r
            },
            StoreError::Storage(s) => s.clone(),
        }
    }
}

/// The largest id the store hands out.
pub const MAX_ID: i64 = 9223372036854775807;

/// Ids run from 1 in order of insertion.
pub open spec fn rows_wf(rows: Seq<StoredModel>) -> bool {
    &&& forall|i: int| 0 <= i < rows.len() ==> (#[trigger] rows[i]).0 == i + 1
    &&& rows.len() <= MAX_ID
}

/// The rows after inserting `m`.
pub open spec fn insert_model(rows: Seq<StoredModel>, m: MessageModel) -> Seq<StoredModel> {
    rows.push((rows.len() + 1int, m.0, m.1))
}

/// The row with id `id`, if any.
pub open spec fn lookup(rows: Seq<StoredModel>, id: int) -> Option<StoredModel> {
    if exists|i: int| 0 <= i < rows.len() && (#[trigger] rows[i]).0 == id {
        Some(rows[choose|i: int| 0 <= i < rows.len() && (#[trigger] rows[i]).0 == id])
    } else {
        None
    }
}

/// Table of submitted messages; rows are never changed or removed.
pub struct MessageStore {
    rows: Vec<StoredMessage>,
}

impl View for MessageStore {
    type V = Seq<StoredModel>;

    /// The rows, in order of insertion.
    closed spec fn view(&self) -> Seq<StoredModel> {
        self.rows@.map_values(|r: StoredMessage| r@)
    }
}

impl MessageStore {
    /// Ids run from 1 in order of insertion, and none exceeds `MAX_ID`.
    pub open spec fn wf(&self) -> bool {
        rows_wf(self@)
    }

    /// An empty table.
    pub fn new() -> (r: MessageStore)
        ensures
            r@ == Seq::<StoredModel>::empty(),
            r.wf(),
    {
        let r = MessageStore { rows: Vec::new() };
        assert(r@ =~= Seq::<StoredModel>::empty());
        r
    }

    /// Adds a row for `m` and returns its id; fails once every id is taken.
    pub fn insert(&mut self, m: &Message) -> (r: Result<i64, StoreError>)
        requires
            old(self).wf(),
        ensures
            final(self).wf(),
            old(self)@.len() < MAX_ID ==> r == Ok::<i64, StoreError>(
                (old(self)@.len() + 1) as i64,
            ) && final(self)@ == insert_model(old(self)@, m@),
            old(self)@.len() == MAX_ID ==> (r matches Err(StoreError::Storage(_)) && final(self)@
                == old(self)@),
    {
        let n = self.rows.len();
        if n as u64 >= MAX_ID as u64 {
            let e = String::from_str("every row id is taken");
            return Err(StoreError::Storage(e));
        }
        let id = (n as u64 + 1) as i64;
        let row = StoredMessage { id, message: m.message.clone(), important: m.important };
        self.rows.push(row);
        assert(self@ =~= insert_model(old(self)@, m@));
        Ok(id)
    }

    /// All rows, in order of insertion.
    pub fn list_all(&self) -> (r: Vec<StoredMessage>)
        ensures
            r@.map_values(|x: StoredMessage| x@) == self@,
    {
        let mut r: Vec<StoredMessage> = Vec::new();
        let n = self.rows.len();
        for i in 0..n
            invariant
                n == self.rows.len(),
                r@.len() == i,
                forall|j: int| 0 <= j < i ==> (#[trigger] r@[j])@ == self.rows@[j]@,
        {
            r.push(self.rows[i].duplicate());
        }
        assert(r@.map_values(|x: StoredMessage| x@) =~= self@);
        r
    }

    /// The row with id `id`, or `NotFound`.
    pub fn get_by_id(&self, id: i64) -> (r: Result<StoredMessage, StoreError>)
        requires
            self.wf(),
        ensures
            match lookup(self@, id as int) {
                Some(row) => r matches Ok(x) && x@ == row,
                None => r matches Err(StoreError::NotFound),
            },
    {
        let n = self.rows.len();
        if id < 1 || id as u64 > n as u64 {
            assert(lookup(self@, id as int) is None);
            return Err(StoreError::NotFound);
        }
        let i = (id - 1) as usize;
        assert(self@[i as int].0 == id);
        let row = self.rows[i].duplicate();
        assert(lookup(self@, id as int) == Some(self@[i as int]));
        Ok(row)
    }
}

/// The rows after inserting `ms` in order into an empty table.
pub open spec fn run_inserts(ms: Seq<MessageModel>) -> Seq<StoredModel>
    decreases ms.len(),
{
    if ms.len() == 0 {
        Seq::empty()
    } else {
        insert_model(run_inserts(ms.drop_last()), ms.last())
    }
}

/// A row that was just inserted is found under the id it was given, with the
/// submitted text and flag.
pub proof fn lemma_insert_then_get(rows: Seq<StoredModel>, m: MessageModel)
    requires
        rows_wf(rows),
        rows.len() < MAX_ID,
    ensures
        rows_wf(insert_model(rows, m)),
        lookup(insert_model(rows, m), rows.len() + 1int) == Some((rows.len() + 1int, m.0, m.1)),
{
    let r = insert_model(rows, m);
    let id = rows.len() + 1int;
    assert(r[rows.len() as int].0 == id);
    let k = choose|i: int| 0 <= i < r.len() && (#[trigger] r[i]).0 == id;
    assert(k == rows.len());
}

/// N inserts into an empty table give N rows in order of insertion, holding
/// the submitted values, with strictly increasing ids.
pub proof fn lemma_inserts_in_order(ms: Seq<MessageModel>)
    requires
        ms.len() <= MAX_ID,
    ensures
        run_inserts(ms).len() == ms.len(),
        rows_wf(run_inserts(ms)),
        forall|i: int|
            0 <= i < ms.len() ==> (#[trigger] run_inserts(ms)[i]).1 == ms[i].0 && run_inserts(
                ms,
            )[i].2 == ms[i].1,
        forall|i: int, j: int|
            0 <= i < j < ms.len() ==> (#[trigger] run_inserts(ms)[i]).0 < (#[trigger] run_inserts(
                ms,
            )[j]).0,
    decreases ms.len(),
{
    if ms.len() > 0 {
        lemma_inserts_in_order(ms.drop_last());
    }
}

/// Looking up an id that no row has finds nothing.
pub proof fn lemma_missing_id(rows: Seq<StoredModel>, id: int)
    requires
        forall|i: int| 0 <= i < rows.len() ==> (#[trigger] rows[i]).0 != id,
    ensures
        lookup(rows, id) is None,
{
}

} // verus!
