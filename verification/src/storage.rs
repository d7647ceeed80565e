//! The storage facade: one string value per key in each of two scopes.
//!
//! [`Storage`] is a store held in memory that behaves as the host's storage
//! does: two scopes that share nothing, and writes that the store may refuse
//! for want of room. [`set_storage`] and [`get_storage`] work on it. A driver
//! that talks to a real host takes from here the choice of the scope and the
//! reading of the host's answers, [`write_result`] and [`read_result`].

use vstd::prelude::*;

pub mod laws;

verus! {

/// One of the two stores of the host. They differ in how long they live and
/// share no record.
#[derive(Clone, Copy, Debug, PartialEq, Eq, Structural)]
pub enum Scope {
    /// Kept by the host beyond the session.
    Durable,
    /// Dropped by the host when the session ends.
    Session,
}

impl Scope {
    /// The scope that the flag of the facade stands for.
    pub open spec fn of(is_local: bool) -> Scope {
        if is_local {
            Scope::Durable
        } else {
            Scope::Session
        }
    }

    /// The scope that the flag of the facade stands for.
    pub fn select(is_local: bool) -> (scope: Scope)
        ensures
            scope == Scope::of(is_local),
    {
        if is_local {
            Scope::Durable
        } else {
            Scope::Session
        }
    }
}

/// Why a storage operation produced nothing.
#[derive(Debug, PartialEq, Eq)]
pub enum SaveError {
    /// The host refused the write.
    SaveWriteFailed,
    /// The scope holds no record for the key, which the error carries.
    SaveNotFound(String),
}

/// The mathematical value of a [`SaveError`].
pub enum SaveErrorView {
    SaveWriteFailed,
    SaveNotFound(Seq<char>),
}

impl View for SaveError {
    type V = SaveErrorView;

    open spec fn view(&self) -> SaveErrorView {
        match self {
            SaveError::SaveWriteFailed => SaveErrorView::SaveWriteFailed,
            SaveError::SaveNotFound(key) => SaveErrorView::SaveNotFound(key@),
        }
    }
}

/// The mathematical value of what a write returns.
pub open spec fn written_view(result: Result<(), SaveError>) -> Result<(), SaveErrorView> {
    match result {
        Ok(()) => Ok(()),
        Err(error) => Err(error@),
    }
}

/// The mathematical value of what a read returns.
pub open spec fn read_view(result: Result<String, SaveError>) -> Result<Seq<char>, SaveErrorView> {
    match result {
        Ok(value) => Ok(value@),
        Err(error) => Err(error@),
    }
}

/// What a write returns when the host has accepted it, or has not.
pub open spec fn write_result_spec(accepted: bool) -> Result<(), SaveErrorView> {
    if accepted {
        Ok(())
    } else {
        Err(SaveErrorView::SaveWriteFailed)
    }
}

/// What a read of `key` returns when the host has answered with `found`.
pub open spec fn read_result_spec(found: Option<Seq<char>>, key: Seq<char>) -> Result<
    Seq<char>,
    SaveErrorView,
> {
    match found {
        Some(value) => Ok(value),
        None => Err(SaveErrorView::SaveNotFound(key)),
    }
}

/// Reads the host's answer to a write.
pub fn write_result(accepted: bool) -> (result: Result<(), SaveError>)
    ensures
        written_view(result) == write_result_spec(accepted),
{
    if accepted {
        Ok(())
    } else {
        Err(SaveError::SaveWriteFailed)
    }
}

/// Reads the host's answer to a lookup of `profile`.
pub fn read_result(found: Option<String>, profile: &str) -> (result: Result<String, SaveError>)
    ensures
        read_view(result) == read_result_spec(
            match found {
                Some(value) => Some(value@),
                None => None,
            },
            profile@,
        ),
{
    match found {
        Some(value) => Ok(value),
        None => Err(SaveError::SaveNotFound(profile.to_owned())),
    }
}


/// The records of one scope: each key with its value.
pub type Records = Map<Seq<char>, Seq<char>>;

/// The mathematical value of a [`Storage`].
pub struct StorageView {
    /// The records of the durable scope.
    pub durable: Records,
    /// The records of the session scope.
    pub session: Records,
    /// How many records each scope has room for.
    pub capacity: nat,
}

impl StorageView {
    /// A store with room for `capacity` records in each scope, and none in it.
    pub open spec fn empty(capacity: nat) -> StorageView {
        StorageView { durable: Map::empty(), session: Map::empty(), capacity }
    }

    /// The records of a scope.
    pub open spec fn records(self, scope: Scope) -> Records {
        match scope {
            Scope::Durable => self.durable,
            Scope::Session => self.session,
        }
    }

    /// Whether the store takes a write to `key` in `scope`: the key has a
    /// record there already, which the write replaces, or the scope has room
    /// for one more.
    pub open spec fn accepts(self, scope: Scope, key: Seq<char>) -> bool {
        self.records(scope).contains_key(key) || self.records(scope).len() < self.capacity
    }

    /// The store after a write of `value` to `key` in `scope`. An accepted
    /// write puts the value in place of what the key had in that scope, and
    /// touches nothing else. A refused write changes nothing.
    pub open spec fn set(self, scope: Scope, key: Seq<char>, value: Seq<char>) -> StorageView {
        if !self.accepts(scope, key) {
            self
        } else {
            match scope {
                Scope::Durable => StorageView { durable: self.durable.insert(key, value), ..self },
                Scope::Session => StorageView { session: self.session.insert(key, value), ..self },
            }
        }
    }

    /// What a read of `key` in `scope` returns: the value of the key's record
    /// in that scope, or the error that carries the key.
    pub open spec fn get(self, scope: Scope, key: Seq<char>) -> Result<Seq<char>, SaveErrorView> {
        read_result_spec(
            if self.records(scope).contains_key(key) {
                Some(self.records(scope)[key])
            } else {
                None
            },
            key,
        )
    }
}

#[derive(Debug)]
struct Record {
    key: String,
    value: String,
}

spec fn holds_key(records: Seq<Record>, key: Seq<char>, i: int) -> bool {
    0 <= i < records.len() && records[i].key@ == key
}

spec fn distinct_keys(records: Seq<Record>) -> bool {
    forall|i: int, j: int|
        0 <= i < j < records.len() ==> (#[trigger] records[i]).key@ != (#[trigger] records[j]).key@
}

spec fn records_of(records: Seq<Record>) -> Records {
    Map::new(
        |key: Seq<char>| exists|i: int| holds_key(records, key, i),
        |key: Seq<char>| records[choose|i: int| holds_key(records, key, i)].value@,
    )
}

proof fn lemma_record_found(records: Seq<Record>, i: int)
    requires
        distinct_keys(records),
        0 <= i < records.len(),
    ensures
        records_of(records).contains_key(records[i].key@),
        records_of(records)[records[i].key@] == records[i].value@,
{
    let key = records[i].key@;
    assert(holds_key(records, key, i));
    let chosen = choose|j: int| holds_key(records, key, j);
    assert(holds_key(records, key, chosen));
    if chosen < i {
        assert(records[chosen].key@ != records[i].key@);
    } else if i < chosen {
        assert(records[i].key@ != records[chosen].key@);
    }
}

proof fn lemma_record_replaced(records: Seq<Record>, i: int, record: Record)
    requires
        distinct_keys(records),
        0 <= i < records.len(),
        record.key@ == records[i].key@,
    ensures
        distinct_keys(records.update(i, record)),
        records_of(records.update(i, record)) == records_of(records).insert(
            record.key@,
            record.value@,
        ),
{
    let after = records.update(i, record);
    assert forall|a: int, b: int| 0 <= a < b < after.len() implies (#[trigger] after[a]).key@ != (
    #[trigger] after[b]).key@ by {
        assert(after[a].key@ == records[a].key@);
        assert(after[b].key@ == records[b].key@);
    }
    let left = records_of(after);
    let right = records_of(records).insert(record.key@, record.value@);
    assert forall|key: Seq<char>| left.contains_key(key) <==> right.contains_key(key) by {
        if left.contains_key(key) {
            let j = choose|j: int| holds_key(after, key, j);
            assert(holds_key(records, key, j));
        }
        if right.contains_key(key) {
            if key == record.key@ {
                assert(holds_key(after, key, i));
            } else {
                let j = choose|j: int| holds_key(records, key, j);
                assert(holds_key(after, key, j));
            }
        }
    }
    assert forall|key: Seq<char>| left.contains_key(key) implies left[key] == right[key] by {
        let j = choose|j: int| holds_key(after, key, j);
        lemma_record_found(after, j);
        if j != i {
            assert(holds_key(records, key, j));
            lemma_record_found(records, j);
        }
    }
    assert(left =~= right);
}

proof fn lemma_record_added(records: Seq<Record>, record: Record)
    requires
        distinct_keys(records),
        forall|i: int| 0 <= i < records.len() ==> (#[trigger] records[i]).key@ != record.key@,
    ensures
        distinct_keys(records.push(record)),
        !records_of(records).contains_key(record.key@),
        records_of(records.push(record)) == records_of(records).insert(record.key@, record.value@),
{
    let after = records.push(record);
    assert forall|a: int, b: int| 0 <= a < b < after.len() implies (#[trigger] after[a]).key@ != (
    #[trigger] after[b]).key@ by {
        assert(after[a] == records[a]);
        if b < records.len() {
            assert(after[b] == records[b]);
        }
    }
    if records_of(records).contains_key(record.key@) {
        let j = choose|j: int| holds_key(records, record.key@, j);
        assert(records[j].key@ != record.key@);
    }
    let left = records_of(after);
    let right = records_of(records).insert(record.key@, record.value@);
    let last = records.len() as int;
    assert forall|key: Seq<char>| left.contains_key(key) <==> right.contains_key(key) by {
        if left.contains_key(key) {
            let j = choose|j: int| holds_key(after, key, j);
            if j < last {
                assert(holds_key(records, key, j));
            }
        }
        if right.contains_key(key) {
            if key == record.key@ {
                assert(holds_key(after, key, last));
            } else {
                let j = choose|j: int| holds_key(records, key, j);
                assert(holds_key(after, key, j));
            }
        }
    }
    assert forall|key: Seq<char>| left.contains_key(key) implies left[key] == right[key] by {
        let j = choose|j: int| holds_key(after, key, j);
        lemma_record_found(after, j);
        if j < last {
            assert(holds_key(records, key, j));
            lemma_record_found(records, j);
        }
    }
    assert(left =~= right);
}

proof fn lemma_record_count(records: Seq<Record>)
    requires
        distinct_keys(records),
    ensures
        records_of(records).dom().finite(),
        records_of(records).len() == records.len(),
    decreases records.len(),
{
    if records.len() == 0 {
        assert(records_of(records) =~= Map::empty());
    } else {
        let front = records.drop_last();
        let record = records.last();
        assert forall|i: int, j: int| 0 <= i < j < front.len() implies (#[trigger] front[i]).key@
            != (#[trigger] front[j]).key@ by {
            assert(front[i] == records[i]);
            assert(front[j] == records[j]);
        }
        assert forall|i: int| 0 <= i < front.len() implies (#[trigger] front[i]).key@
            != record.key@ by {
            assert(front[i] == records[i]);
            assert(records[i].key@ != records[records.len() - 1].key@);
        }
        lemma_record_count(front);
        lemma_record_added(front, record);
        assert(front.push(record) =~= records);
    }
}


/// A store of records in two scopes, held in memory. Each scope keeps one
/// value per key and has room for the same number of records.
#[derive(Debug)]
pub struct Storage {
    durable: Vec<Record>,
    session: Vec<Record>,
    capacity: usize,
}

impl View for Storage {
    type V = StorageView;

    closed spec fn view(&self) -> StorageView {
        StorageView {
            durable: records_of(self.durable@),
            session: records_of(self.session@),
            capacity: self.capacity as nat,
        }
    }
}

fn find(records: &Vec<Record>, key: &String) -> (found: Option<usize>)
    ensures
        match found {
            Some(i) => holds_key(records@, key@, i as int),
            None => forall|i: int| 0 <= i < records.len() ==> (#[trigger] records[i]).key@ != key@,
        },
{
    let mut at: usize = 0;
    while at < records.len()
        invariant
            at <= records.len(),
            forall|i: int| 0 <= i < at ==> (#[trigger] records[i]).key@ != key@,
        decreases records.len() - at,
    {
        if records[at].key == *key {
            return Some(at);
        }
        at += 1;
    }
    None
}

fn store_record(records: &mut Vec<Record>, capacity: usize, record: Record) -> (accepted: bool)
    requires
        distinct_keys(old(records)@),
        old(records).len() <= capacity,
    ensures
        distinct_keys(final(records)@),
        final(records).len() <= capacity,
        accepted == (records_of(old(records)@).contains_key(record.key@) || records_of(
            old(records)@,
        ).len() < capacity),
        accepted ==> records_of(final(records)@) == records_of(old(records)@).insert(
            record.key@,
            record.value@,
        ),
        !accepted ==> final(records)@ == old(records)@,
{
    proof {
        lemma_record_count(records@);
    }
    match find(records, &record.key) {
        Some(at) => {
            proof {
                lemma_record_found(records@, at as int);
                lemma_record_replaced(records@, at as int, record);
            }
            records.set(at, record);
            true
        },
        None => {
            proof {
                lemma_record_added(records@, record);
            }
            if records.len() < capacity {
                records.push(record);
                true
            } else {
                false
            }
        },
    }
}

fn load_record(records: &Vec<Record>, key: &String) -> (found: Option<String>)
    requires
        distinct_keys(records@),
    ensures
        match found {
            Some(value) => records_of(records@).contains_key(key@) && records_of(records@)[key@]
                == value@,
            None => !records_of(records@).contains_key(key@),
        },
{
    match find(records, key) {
        Some(at) => {
            proof {
                lemma_record_found(records@, at as int);
            }
            Some(records[at].value.clone())
        },
        None => {
            proof {
                if records_of(records@).contains_key(key@) {
                    let i = choose|i: int| holds_key(records@, key@, i);
                    assert(records[i].key@ != key@);
                }
            }
            None
        },
    }
}

impl Storage {
    #[verifier::type_invariant]
    spec fn well_formed(self) -> bool {
        &&& distinct_keys(self.durable@)
        &&& distinct_keys(self.session@)
        &&& self.durable.len() <= self.capacity
        &&& self.session.len() <= self.capacity
    }

    /// A store with room for `capacity` records in each scope, and none in it.
    pub fn new(capacity: usize) -> (store: Storage)
        ensures
            store@ == StorageView::empty(capacity as nat),
    {
        let store = Storage { durable: Vec::new(), session: Vec::new(), capacity };
        assert(records_of(store.durable@) =~= Map::empty());
        assert(records_of(store.session@) =~= Map::empty());
        store
    }

    /// How many records each scope has room for.
    pub fn capacity(&self) -> (capacity: usize)
        ensures
            capacity == self@.capacity,
    {
        self.capacity
    }

    /// How many records a scope holds.
    pub fn len(&self, scope: Scope) -> (len: usize)
        ensures
            len == self@.records(scope).len(),
            len <= self@.capacity,
    {
        proof {
            use_type_invariant(self);
            lemma_record_count(self.durable@);
            lemma_record_count(self.session@);
        }
        match scope {
            Scope::Durable => self.durable.len(),
            Scope::Session => self.session.len(),
        }
    }
}

/// Writes `value` under the key `profile`, in the durable scope where
/// `is_local` is set and in the session scope where it is not.
pub fn set_storage(store: &mut Storage, is_local: bool, profile: &str, value: &str) -> (result:
    Result<(), SaveError>)
    ensures
        final(store)@ == old(store)@.set(Scope::of(is_local), profile@, value@),
        written_view(result) == write_result_spec(
            old(store)@.accepts(Scope::of(is_local), profile@),
        ),
{
    proof {
        use_type_invariant(&*store);
    }
    let record = Record { key: profile.to_owned(), value: value.to_owned() };
    let capacity: usize = store.capacity;
    let mut records: Vec<Record> = Vec::new();
    let accepted: bool = match Scope::select(is_local) {
        Scope::Durable => {
            std::mem::swap(&mut records, &mut store.durable);
            let accepted: bool = store_record(&mut records, capacity, record);
            store.durable = records;
            accepted
        },
        Scope::Session => {
            std::mem::swap(&mut records, &mut store.session);
            let accepted: bool = store_record(&mut records, capacity, record);
            store.session = records;
            accepted
        },
    };
    write_result(accepted)
}

/// Reads the value under the key `profile`, in the durable scope where
/// `is_local` is set and in the session scope where it is not.
pub fn get_storage(store: &Storage, is_local: bool, profile: &str) -> (result: Result<
    String,
    SaveError,
>)
    ensures
        read_view(result) == store@.get(Scope::of(is_local), profile@),
{
    proof {
        use_type_invariant(store);
    }
    let key: String = profile.to_owned();
    let found: Option<String> = match Scope::select(is_local) {
        Scope::Durable => load_record(&store.durable, &key),
        Scope::Session => load_record(&store.session, &key),
    };
    read_result(found, profile)
}

/// One write, as it is asked of a store.
pub struct Write {
    pub scope: Scope,
    pub key: Seq<char>,
    pub value: Seq<char>,
}

/// The store after the writes of `writes` were asked of it in turn.
pub open spec fn after_writes(store: StorageView, writes: Seq<Write>) -> StorageView
    decreases writes.len(),
{
    if writes.len() == 0 {
        store
    } else {
        after_writes(store, writes.drop_last()).set(
            writes.last().scope,
            writes.last().key,
            writes.last().value,
        )
    }
}

} // verus!
