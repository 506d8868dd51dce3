//! The registry: the one store that maps the identity of each live player to
//! its snapshot, its subscription handle and the time of its last update.
use vstd::prelude::*;
use dashmap::DashMap;
use crate::properties::{Delta, DeltaView, PlaybackStatus, Properties, PropertiesView, invalidated, merged};
use crate::text::texts;

verus! {

/// `dashmap::DashMap`, the concurrent hash map in which the registry keeps
/// its entries. Nothing inside it is visible to proofs: what it holds is
/// spoken of through `stored`.
#[verifier::external_type_specification]
#[verifier::external_body]
#[verifier::reject_recursive_types(K)]
#[verifier::reject_recursive_types(V)]
#[verifier::reject_recursive_types(S)]
pub struct ExDashMap<K, V, S>(DashMap<K, V, S>);

/// What the registry holds for one player.
#[derive(Clone, Debug, PartialEq, Eq)]
pub struct Entry {
    /// The player's properties as last known.
    pub snapshot: Properties,
    /// The subscription to the player's change notifications.
    pub handle: u64,
    /// When the entry was last written, on the caller's clock.
    pub updated_at: u64,
}

/// The mathematical value of an [`Entry`].
pub ghost struct EntryView {
    pub snapshot: PropertiesView,
    pub handle: u64,
    pub updated_at: u64,
}

impl View for Entry {
    type V = EntryView;

    open spec fn view(&self) -> EntryView {
        EntryView { snapshot: self.snapshot@, handle: self.handle, updated_at: self.updated_at }
    }
}

/// What a `DashMap` holds: its entries, by the text of their keys. The
/// functions below that call the map's methods say how each of them reads or
/// changes it; no order of the entries is spoken of.
pub uninterp spec fn stored(map: DashMap<String, Entry>) -> Map<Seq<char>, EntryView>;

/// The registry without entries.
pub open spec fn no_entries() -> Map<Seq<char>, EntryView> {
    Map::empty()
}

/// The handle of the entry under `id`, if there is one.
pub open spec fn handle_at(m: Map<Seq<char>, EntryView>, id: Seq<char>) -> Option<u64> {
    if m.contains_key(id) {
        Some(m[id].handle)
    } else {
        None
    }
}

/// The registry after a full snapshot has been written under `id`.
pub open spec fn after_upsert(
    m: Map<Seq<char>, EntryView>,
    id: Seq<char>,
    snapshot: PropertiesView,
    handle: u64,
    now: u64,
) -> Map<Seq<char>, EntryView> {
    m.insert(id, EntryView { snapshot, handle, updated_at: now })
}

/// The registry after a delta for `id`: where `id` has an entry, the delta is
/// merged into its snapshot and the listed properties are then made absent;
/// where it has none, nothing changes.
pub open spec fn after_delta(
    m: Map<Seq<char>, EntryView>,
    id: Seq<char>,
    delta: DeltaView,
    keys: Seq<Seq<char>>,
    now: u64,
) -> Map<Seq<char>, EntryView> {
    if m.contains_key(id) {
        m.insert(
            id,
            EntryView {
                snapshot: invalidated(merged(m[id].snapshot, delta), keys),
                handle: m[id].handle,
                updated_at: now,
            },
        )
    } else {
        m
    }
}

/// The identities whose last known status is `Playing`.
pub open spec fn playing(m: Map<Seq<char>, EntryView>) -> Set<Seq<char>> {
    Set::new(
        |id: Seq<char>| m.contains_key(id) && m[id].snapshot.playback_status == PlaybackStatus::Playing,
    )
}

/// Calls `DashMap::new`: a map without entries.
#[verifier::external_body]
fn store_new() -> (store: DashMap<String, Entry>)
    ensures
        stored(store) == no_entries(),
{
    DashMap::new()
}

/// Calls `DashMap::insert`: the value is stored under the key, in place of
/// any value that was there, and that earlier value is handed back.
#[verifier::external_body]
fn store_insert(map: &mut DashMap<String, Entry>, key: String, value: Entry) -> (prev: Option<Entry>)
    ensures
        stored(*final(map)) == stored(*old(map)).insert(key@, value@),
        match prev {
            Some(e) => stored(*old(map)).contains_key(key@) && stored(*old(map))[key@] == e@,
            None => !stored(*old(map)).contains_key(key@),
        },
{
    map.insert(key, value)
}

/// Calls `DashMap::remove`: the entry under the key leaves the map, if there
/// was one, and its value is handed back.
#[verifier::external_body]
fn store_remove(map: &mut DashMap<String, Entry>, key: &str) -> (prev: Option<Entry>)
    ensures
        stored(*final(map)) == stored(*old(map)).remove(key@),
        match prev {
            Some(e) => stored(*old(map)).contains_key(key@) && stored(*old(map))[key@] == e@,
            None => !stored(*old(map)).contains_key(key@),
        },
{
    map.remove(key).map(|pair| pair.1)
}

/// Calls `DashMap::get` and copies the value found: the value under the key,
/// if there is one.
#[verifier::external_body]
fn store_get(map: &DashMap<String, Entry>, key: &str) -> (found: Option<Entry>)
    ensures
        match found {
            Some(e) => stored(*map).contains_key(key@) && stored(*map)[key@] == e@,
            None => !stored(*map).contains_key(key@),
        },
{
    map.get(key).map(|entry| entry.value().clone())
}

/// Calls `DashMap::iter` and copies each key: every key of the map once, in
/// an order that is not fixed.
#[verifier::external_body]
fn store_keys(map: &DashMap<String, Entry>) -> (keys: Vec<String>)
    ensures
        texts(keys).no_duplicates(),
        texts(keys).to_set() == stored(*map).dom(),
{
    map.iter().map(|entry| entry.key().clone()).collect()
}

/// The registry of live players.
pub struct Registry {
    entries: DashMap<String, Entry>,
}

impl View for Registry {
    type V = Map<Seq<char>, EntryView>;

    closed spec fn view(&self) -> Map<Seq<char>, EntryView> {
        stored(self.entries)
    }
}

impl Registry {
    /// A registry without entries.
    pub fn new() -> (r: Registry)
        ensures
            r@ == no_entries(),
    {
        Registry { entries: store_new() }
    }

    /// Writes a full snapshot under `identity`, in place of any entry that was
    /// there. Hands back the handle of the entry that was replaced: its
    /// subscription is no longer held by the registry and is to be cancelled.
    pub fn upsert_full(&mut self, identity: String, snapshot: Properties, handle: u64, now: u64) -> (replaced:
        Option<u64>)
        ensures
            final(self)@ == after_upsert(old(self)@, identity@, snapshot@, handle, now),
            replaced == handle_at(old(self)@, identity@),
    {
        let entry = Entry { snapshot, handle, updated_at: now };
        match store_insert(&mut self.entries, identity, entry) {
            Some(prev) => Some(prev.handle),
            None => None,
        }
    }

    /// Merges a delta into the entry of `identity` and makes the listed
    /// properties absent. Where `identity` has no entry nothing is written and
    /// none is made. Says whether there was an entry.
    pub fn apply_delta(&mut self, identity: &str, delta: Delta, invalidated_keys: &Vec<String>, now: u64) -> (applied:
        bool)
        ensures
            applied == old(self)@.contains_key(identity@),
            final(self)@ == after_delta(old(self)@, identity@, delta@, texts(*invalidated_keys), now),
    {
        match store_remove(&mut self.entries, identity) {
            Some(mut entry) => {
                entry.snapshot.apply(delta);
                entry.snapshot.invalidate(invalidated_keys);
                entry.updated_at = now;
                let _ = store_insert(&mut self.entries, crate::text::copy_text(identity), entry);
                assert(self@ =~= after_delta(old(self)@, identity@, delta@, texts(*invalidated_keys), now));
                true
            },
            None => {
                assert(self@ =~= old(self)@);
                false
            },
        }
    }

    /// Deletes the entry of `identity`, if there is one, and hands back its
    /// handle for the caller to cancel. Afterwards `identity` has no entry,
    /// whether it had one or not.
    pub fn remove(&mut self, identity: &str) -> (cancelled: Option<u64>)
        ensures
            final(self)@ == old(self)@.remove(identity@),
            cancelled == handle_at(old(self)@, identity@),
    {
        match store_remove(&mut self.entries, identity) {
            Some(prev) => Some(prev.handle),
            None => None,
        }
    }

    /// The snapshot of `identity`, if it has an entry.
    pub fn get(&self, identity: &str) -> (r: Option<Properties>)
        ensures
            match r {
                Some(p) => self@.contains_key(identity@) && self@[identity@].snapshot == p@,
                None => !self@.contains_key(identity@),
            },
    {
        match store_get(&self.entries, identity) {
            Some(entry) => Some(entry.snapshot),
            None => None,
        }
    }

    /// The whole entry of `identity`, if it has one.
    pub fn entry(&self, identity: &str) -> (r: Option<Entry>)
        ensures
            match r {
                Some(e) => self@.contains_key(identity@) && self@[identity@] == e@,
                None => !self@.contains_key(identity@),
            },
    {
        store_get(&self.entries, identity)
    }

    /// Whether `identity` has an entry.
    pub fn contains(&self, identity: &str) -> (r: bool)
        ensures
            r == self@.contains_key(identity@),
    {
        store_get(&self.entries, identity).is_some()
    }

    /// The identities that have an entry, each once, in no fixed order.
    pub fn list(&self) -> (r: Vec<String>)
        ensures
            texts(r).no_duplicates(),
            texts(r).to_set() == self@.dom(),
    {
        store_keys(&self.entries)
    }
}

/// Removing an identity twice is the same as removing it once: after the
/// first removal the identity has no entry and no handle is left to cancel,
/// and the second removal changes nothing.
pub proof fn lemma_remove_is_idempotent(m: Map<Seq<char>, EntryView>, id: Seq<char>)
    ensures
        !m.remove(id).contains_key(id),
        handle_at(m.remove(id), id).is_none(),
        m.remove(id).remove(id) == m.remove(id),
{
    assert(m.remove(id).remove(id) =~= m.remove(id));
}

/// A delta never makes an entry: the identities with an entry are the same
/// before and after, and a delta for an identity without an entry changes
/// nothing at all.
pub proof fn lemma_delta_makes_no_entry(
    m: Map<Seq<char>, EntryView>,
    id: Seq<char>,
    delta: DeltaView,
    keys: Seq<Seq<char>>,
    now: u64,
)
    ensures
        after_delta(m, id, delta, keys, now).dom() == m.dom(),
        !m.contains_key(id) ==> after_delta(m, id, delta, keys, now) == m,
{
    assert(after_delta(m, id, delta, keys, now).dom() =~= m.dom());
}

/// A delta for one identity leaves the entry of every other identity as it
/// was.
pub proof fn lemma_delta_is_local(
    m: Map<Seq<char>, EntryView>,
    id: Seq<char>,
    other: Seq<char>,
    delta: DeltaView,
    keys: Seq<Seq<char>>,
    now: u64,
)
    requires
        other != id,
        m.contains_key(other),
    ensures
        after_delta(m, id, delta, keys, now)[other] == m[other],
{
}

} // verus!
