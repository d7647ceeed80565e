//! What holds of the storage facade on every input, proved of the model that
//! the contracts of [`set_storage`](super::set_storage) and
//! [`get_storage`](super::get_storage) are stated over.

use super::{after_writes, SaveErrorView, Scope, StorageView, Write};
use vstd::prelude::*;

verus! {

/// A read that follows an accepted write to the same key in the same scope
/// returns the value that was written.
pub proof fn law_get_after_set(store: StorageView, scope: Scope, key: Seq<char>, value: Seq<char>)
    requires
        store.accepts(scope, key),
    ensures
        store.set(scope, key, value).get(scope, key) == Ok::<Seq<char>, SaveErrorView>(value),
{
}

/// The two scopes are isolated: a write in one scope changes no record of
/// the other, so that no read in the other scope sees it, under the written
/// key or any other.
pub proof fn law_scopes_isolated(
    store: StorageView,
    scope: Scope,
    key: Seq<char>,
    value: Seq<char>,
    other: Scope,
    read_key: Seq<char>,
)
    requires
        other != scope,
    ensures
        store.set(scope, key, value).records(other) == store.records(other),
        store.set(scope, key, value).get(other, read_key) == store.get(other, read_key),
{
}

/// A write to one key changes what no other key of the scope reads.
pub proof fn law_set_keeps_other_keys(
    store: StorageView,
    scope: Scope,
    key: Seq<char>,
    value: Seq<char>,
    read_key: Seq<char>,
)
    requires
        read_key != key,
    ensures
        store.set(scope, key, value).get(scope, read_key) == store.get(scope, read_key),
{
}

/// In a store that holds nothing every read fails, with the error that
/// carries the key that was asked for.
pub proof fn law_empty_store_finds_nothing(capacity: nat, scope: Scope, key: Seq<char>)
    ensures
        StorageView::empty(capacity).get(scope, key) == Err::<Seq<char>, SaveErrorView>(
            SaveErrorView::SaveNotFound(key),
        ),
{
}

/// A read never returns a value that was not written before to that key in
/// that scope: whatever a read returns from a store that started empty is the
/// value of one of the writes that were asked of it, to the same key in the
/// same scope.
pub proof fn law_get_returns_what_was_set(
    capacity: nat,
    writes: Seq<Write>,
    scope: Scope,
    key: Seq<char>,
)
    ensures
        after_writes(StorageView::empty(capacity), writes).get(scope, key) matches Ok(value)
            ==> exists|i: int|
            0 <= i < writes.len() && #[trigger] writes[i] == (Write { scope, key, value }),
    decreases writes.len(),
{
    let store = after_writes(StorageView::empty(capacity), writes);
    if writes.len() > 0 {
        let front = writes.drop_last();
        let last = writes.last();
        let before = after_writes(StorageView::empty(capacity), front);
        law_get_returns_what_was_set(capacity, front, scope, key);
        if let Ok(value) = store.get(scope, key) {
            if before.accepts(last.scope, last.key) && last.scope == scope && last.key == key {
                assert(writes[writes.len() - 1] == (Write { scope, key, value }));
            } else {
                assert(before.get(scope, key) == Ok::<Seq<char>, SaveErrorView>(value));
                let i = choose|i: int|
                    0 <= i < front.len() && #[trigger] front[i] == (Write { scope, key, value });
                assert(writes[i] == front[i]);
            }
        }
    }
}

/// A store keeps within its room: whatever writes were asked of a store that
/// started empty, each scope holds finitely many records, and no more than
/// the capacity.
pub proof fn law_store_within_capacity(capacity: nat, writes: Seq<Write>, scope: Scope)
    ensures
        after_writes(StorageView::empty(capacity), writes).capacity == capacity,
        after_writes(StorageView::empty(capacity), writes).records(scope).dom().finite(),
        after_writes(StorageView::empty(capacity), writes).records(scope).len() <= capacity,
    decreases writes.len(),
{
    if writes.len() > 0 {
        law_store_within_capacity(capacity, writes.drop_last(), scope);
    }
}

} // verus!
