//! The two concurrent maps of the transaction store, both keyed by session id.
//!
//! The store owns its maps and changes them through `&mut` alone, so a map holds
//! between two calls exactly what the first call left in it.

use dashmap::DashMap;
use vstd::prelude::*;

use crate::context::transaction::{
    self, retain_entry, LastSeenTransaction, PgTransaction, TransactionEntry, TransactionState,
    TransactionView,
};

verus! {

/// The sharded hash map of the `dashmap` crate.
#[verifier::external_type_specification]
#[verifier::external_body]
#[verifier::reject_recursive_types(K)]
#[verifier::reject_recursive_types(V)]
#[verifier::reject_recursive_types(S)]
pub struct ExDashMap<K, V, S>(dashmap::DashMap<K, V, S>);

/// Open transactions by session id, each with the time at which it was filed.
pub type OpenMap = Map<Seq<u8>, (u128, TransactionView)>;

/// The transaction last started in each session.
pub type SeenMap = Map<Seq<u8>, LastSeenTransaction>;

/// What a map of open transactions holds.
pub uninterp spec fn open_contents(
    map: DashMap<Vec<u8>, TransactionEntry>,
) -> Map<Seq<u8>, (u128, TransactionView)>;

/// What a map of last seen transactions holds.
pub uninterp spec fn seen_contents(
    map: DashMap<Vec<u8>, LastSeenTransaction>,
) -> Map<Seq<u8>, LastSeenTransaction>;

/// The view of an entry that may be there.
pub open spec fn entry_view(entry: Option<TransactionEntry>) -> Option<(u128, TransactionView)> {
    match entry {
        Some((filed, transaction)) => Some((filed, transaction@)),
        None => None,
    }
}

/// The entries that are still live at `now`.
pub open spec fn live_entries(entries: OpenMap, now: u128, expiration: u128) -> OpenMap {
    entries.restrict(
        Set::new(
            |key: Seq<u8>|
                entries.contains_key(key) && transaction::is_live(entries[key].0, now, expiration),
        ),
    )
}

/// `abandoned` names each session whose entry has expired at `now` while its
/// backend transaction was neither committed nor gone, once, together with that
/// backend transaction, and names nothing else.
pub open spec fn are_abandoned(
    abandoned: Seq<(Vec<u8>, PgTransaction)>,
    entries: OpenMap,
    now: u128,
    expiration: u128,
) -> bool {
    &&& forall|i: int|
        0 <= i < abandoned.len() ==> {
            let key = (#[trigger] abandoned[i]).0@;
            &&& entries.contains_key(key)
            &&& !transaction::is_live(entries[key].0, now, expiration)
            &&& entries[key].1.uncommitted() == Some(abandoned[i].1)
        }
    &&& forall|key: Seq<u8>| #[trigger]
        entries.contains_key(key) && !transaction::is_live(entries[key].0, now, expiration)
            && entries[key].1.uncommitted() is Some ==> exists|i: int|
            0 <= i < abandoned.len() && (#[trigger] abandoned[i]).0@ == key
    &&& forall|i: int, j: int|
        0 <= i < j < abandoned.len() ==> (#[trigger] abandoned[i]).0@ != (
        #[trigger] abandoned[j]).0@
}

/// `DashMap::new`: the map that it makes is empty.
#[verifier::external_body]
pub(crate) fn open_new() -> (map: DashMap<Vec<u8>, TransactionEntry>)
    ensures
        open_contents(map) == OpenMap::empty(),
{
    DashMap::new()
}

/// `DashMap::get`, with a copy of the entry that it finds: an entry is found
/// exactly when the map holds the key, and it is the one that the map holds.
#[verifier::external_body]
pub(crate) fn open_get(
    map: &DashMap<Vec<u8>, TransactionEntry>,
    key: &[u8],
) -> (entry: Option<TransactionEntry>)
    ensures
        entry_view(entry) == open_contents(*map).get(key@),
{
    map.get(key).map(|entry| entry.value().clone())
}

/// `DashMap::insert`: afterwards the map holds `entry` under `key` and is
/// otherwise unchanged. The entry that stood there before is returned.
#[verifier::external_body]
pub(crate) fn open_insert(
    map: &mut DashMap<Vec<u8>, TransactionEntry>,
    key: Vec<u8>,
    entry: TransactionEntry,
) -> (previous: Option<TransactionEntry>)
    ensures
        open_contents(*final(map)) == open_contents(*old(map)).insert(key@, (entry.0, entry.1@)),
        entry_view(previous) == open_contents(*old(map)).get(key@),
{
    map.insert(key, entry)
}

/// `DashMap::remove`: afterwards the map holds nothing under `key` and is
/// otherwise unchanged. The entry that stood there before is returned.
#[verifier::external_body]
pub(crate) fn open_remove(
    map: &mut DashMap<Vec<u8>, TransactionEntry>,
    key: &[u8],
) -> (previous: Option<TransactionEntry>)
    ensures
        open_contents(*final(map)) == open_contents(*old(map)).remove(key@),
        entry_view(previous) == open_contents(*old(map)).get(key@),
{
    map.remove(key).map(|(_, entry)| entry)
}

/// `DashMap::retain` with `retain_entry`: the closure is called once for every
/// entry and those for which it returns `false` leave the map, so that the live
/// entries stay, unchanged, and what `retain_entry` takes out of the others is
/// collected. The order in which the map is walked is left open.
#[verifier::external_body]
pub(crate) fn open_retain_live(
    map: &mut DashMap<Vec<u8>, TransactionEntry>,
    now: u128,
    expiration: u128,
) -> (abandoned: Vec<(Vec<u8>, PgTransaction)>)
    ensures
        open_contents(*final(map)) == live_entries(open_contents(*old(map)), now, expiration),
        are_abandoned(abandoned@, open_contents(*old(map)), now, expiration),
{
    let mut abandoned = Vec::new();
    map.retain(|key, entry| retain_entry(key, entry, now, expiration, &mut abandoned));
    abandoned
}

/// `DashMap::new`: the map that it makes is empty.
#[verifier::external_body]
pub(crate) fn seen_new() -> (map: DashMap<Vec<u8>, LastSeenTransaction>)
    ensures
        seen_contents(map) == SeenMap::empty(),
{
    DashMap::new()
}

/// `DashMap::get`, with a copy of the entry that it finds: an entry is found
/// exactly when the map holds the key, and it is the one that the map holds.
#[verifier::external_body]
pub(crate) fn seen_get(
    map: &DashMap<Vec<u8>, LastSeenTransaction>,
    key: &[u8],
) -> (entry: Option<LastSeenTransaction>)
    ensures
        entry == seen_contents(*map).get(key@),
{
    map.get(key).map(|entry| *entry.value())
}

/// `DashMap::insert`: afterwards the map holds `entry` under `key` and is
/// otherwise unchanged. The entry that stood there before is returned.
#[verifier::external_body]
pub(crate) fn seen_insert(
    map: &mut DashMap<Vec<u8>, LastSeenTransaction>,
    key: Vec<u8>,
    entry: LastSeenTransaction,
) -> (previous: Option<LastSeenTransaction>)
    ensures
        seen_contents(*final(map)) == seen_contents(*old(map)).insert(key@, entry),
        previous == seen_contents(*old(map)).get(key@),
{
    map.insert(key, entry)
}

/// `DashMap::get_mut`, with `set_state` called on the entry that it finds. An entry is
/// found exactly when the map holds the key; its number and every other entry
/// stay as they were.
#[verifier::external_body]
pub(crate) fn seen_set_state(
    map: &mut DashMap<Vec<u8>, LastSeenTransaction>,
    key: &[u8],
    state: TransactionState,
) -> (found: bool)
    ensures
        found == seen_contents(*old(map)).contains_key(key@),
        seen_contents(*final(map)) == with_state(seen_contents(*old(map)), key@, state),
{
    map.get_mut(key).map(|mut entry| entry.set_state(state)).is_some()
}

/// `seen` with the state of the entry under `key`, if there is one, set to `state`.
pub open spec fn with_state(seen: SeenMap, key: Seq<u8>, state: TransactionState) -> SeenMap {
    match seen.get(key) {
        Some(entry) => seen.insert(key, LastSeenTransaction { state, ..entry }),
        None => seen,
    }
}

} // verus!
