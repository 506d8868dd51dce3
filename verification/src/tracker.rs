//! The decisions of the synchronisation engine: which names are players,
//! what an ownership change, a finished fetch, a change notification or a
//! polled position does to the registry, and which players a poll asks.
//!
//! Nothing here talks to the bus. The caller receives the events, hands each
//! to the tracker, and carries out what the tracker answers: fetch and
//! subscribe, cancel a subscription, poll a position.
use vstd::prelude::*;
use crate::decode::{DecodeError, decode_delta, decode_full, delta_of, snapshot_of, warns_of};
use crate::properties::{Delta, PlaybackStatus, Properties, PropertiesView, PropertyName, position_only};
use crate::registry::{EntryView, Registry, after_delta, handle_at, no_entries, playing};
use crate::text::{contains_text, copy_text, has_prefix, keep_with_prefix, same_text, texts, with_prefix};
use crate::value::{Item, Value, held, int64_of};

verus! {

/// Whether `name` lies in the namespace of media players.
pub open spec fn is_player_name(name: Seq<char>) -> bool {
    "org.mpris.MediaPlayer2"@.is_prefix_of(name)
}

/// Whether `name` lies in the namespace of media players.
pub fn is_player(name: &str) -> (r: bool)
    ensures
        r == is_player_name(name@),
{
    has_prefix(name, "org.mpris.MediaPlayer2")
}

/// The player names among `names`, in their order.
pub open spec fn player_names(names: Seq<Seq<char>>) -> Seq<Seq<char>> {
    with_prefix(names, "org.mpris.MediaPlayer2"@)
}

/// The candidates among the names registered on the bus: those in the
/// namespace of media players, in their order.
pub fn list_candidates(names: &Vec<String>) -> (r: Vec<String>)
    ensures
        texts(r) == player_names(texts(*names)),
{
    keep_with_prefix(names, "org.mpris.MediaPlayer2")
}

/// The two ways in which the ownership of a name changes.
#[derive(Clone, Copy, Debug, PartialEq, Eq, Structural)]
pub enum Ownership {
    /// The name has an owner now.
    Owned,
    /// The name has no owner any more.
    Unowned,
}

/// The change that an ownership notification reports: the name is unowned
/// where the new owner is empty, owned else.
pub fn transition(old_owner: &str, new_owner: &str) -> (r: Ownership)
    ensures
        r == if new_owner@.len() == 0 {
            Ownership::Unowned
        } else {
            Ownership::Owned
        },
{
    if new_owner.is_empty() {
        Ownership::Unowned
    } else {
        Ownership::Owned
    }
}

/// What the caller is to do after an ownership change.
#[derive(Clone, Copy, Debug, PartialEq, Eq, Structural)]
pub enum OwnerAction {
    /// The name is no player's: nothing to do.
    Ignore,
    /// The player is gone. Cancel the subscription, if one is named.
    Forget { cancel: Option<u64> },
    /// A player has appeared. Cancel the subscription of the entry it
    /// replaces, if one is named; then fetch all properties, subscribe, and
    /// report with `fetch_completed`.
    Fetch { cancel: Option<u64> },
}

/// What a finished fetch has led to.
#[derive(Clone, Debug, PartialEq, Eq)]
pub enum FetchOutcome {
    /// The player has an entry now. Cancel the subscription of the entry it
    /// replaced, if one is named.
    Added { warnings: Vec<PropertyName>, replaced: Option<u64> },
    /// A required property could not be read: no entry was made. Cancel the
    /// subscription named.
    Malformed { field: PropertyName, cancel: u64 },
    /// Nobody waits for this fetch any more: nothing was written. Cancel the
    /// subscription, if one is named.
    Stale { cancel: Option<u64> },
    /// The fetch or the subscription failed: the player stays absent.
    Failed,
}

/// What a change notification has led to.
#[derive(Clone, Debug, PartialEq, Eq)]
pub enum ChangeOutcome {
    /// The changes were merged into the player's entry.
    Applied { warnings: Vec<PropertyName> },
    /// The player has no entry: nothing was written.
    Stale,
    /// The notification could not be read: nothing was written.
    Dropped { field: PropertyName },
}

/// What a polled position has led to.
#[derive(Clone, Copy, Debug, PartialEq, Eq, Structural)]
pub enum PollOutcome {
    /// The position was written.
    Updated,
    /// The player has no entry or is not playing any more: nothing was
    /// written.
    Stale,
    /// The value is no position: nothing was written.
    Unreadable,
    /// The fetch failed: nothing was written.
    Failed,
}

/// The answer to a question about a player that has no entry.
#[derive(Clone, Copy, Debug, PartialEq, Eq, Structural)]
pub struct NotFound;

/// What a fetch brought: all properties of the player and the subscription
/// to its change notifications.
#[derive(Debug, PartialEq, Eq)]
pub struct Fetched {
    pub bag: Vec<Item>,
    pub handle: u64,
}

/// The mathematical value of a [`Tracker`].
pub ghost struct TrackerView {
    /// The entries of the registry.
    pub entries: Map<Seq<char>, EntryView>,
    /// The players whose fetch is under way.
    pub pending: Set<Seq<char>>,
}

/// The state after an ownership change of `name`: a name that is no player's
/// changes nothing; else the entry of `name` is gone, and a fetch for it is
/// under way exactly where it is owned now.
pub open spec fn after_owner_change(s: TrackerView, name: Seq<char>, to: Ownership) -> TrackerView {
    if !is_player_name(name) {
        s
    } else {
        TrackerView {
            entries: s.entries.remove(name),
            pending: if to == Ownership::Owned {
                s.pending.insert(name)
            } else {
                s.pending.remove(name)
            },
        }
    }
}

/// What the caller is to do after an ownership change of `name`.
pub open spec fn owner_action(s: TrackerView, name: Seq<char>, to: Ownership) -> OwnerAction {
    if !is_player_name(name) {
        OwnerAction::Ignore
    } else if to == Ownership::Owned {
        OwnerAction::Fetch { cancel: handle_at(s.entries, name) }
    } else {
        OwnerAction::Forget { cancel: handle_at(s.entries, name) }
    }
}

/// The state after the fetch for `id` has finished with `fetched`, a bag and
/// a handle, or with nothing where it failed. Where no fetch for `id` is
/// under way nothing changes. Else the fetch is over, and `id` gets an entry
/// exactly where the bag spells a snapshot.
pub open spec fn after_fetch(s: TrackerView, id: Seq<char>, fetched: Option<(Seq<Item>, u64)>, now: u64) -> TrackerView {
    if !s.pending.contains(id) {
        s
    } else {
        TrackerView {
            entries: match fetched {
                Some((bag, handle)) => match snapshot_of(bag) {
                    Ok(p) => s.entries.insert(id, EntryView { snapshot: p, handle, updated_at: now }),
                    Err(_) => s.entries,
                },
                None => s.entries,
            },
            pending: s.pending.remove(id),
        }
    }
}

/// Whether the subscription `handle` is the one that the entry of `id`
/// holds.
pub open spec fn is_subscribed(s: TrackerView, id: Seq<char>, handle: u64) -> bool {
    handle_at(s.entries, id) == Some(handle)
}

/// The state after the subscription `handle` has brought a change
/// notification for `id`: where the bag spells a delta and the entry of `id`
/// holds this subscription, the delta is merged into the entry; else nothing
/// changes.
pub open spec fn after_change(
    s: TrackerView,
    id: Seq<char>,
    handle: u64,
    bag: Seq<Item>,
    keys: Seq<Seq<char>>,
    now: u64,
) -> TrackerView {
    match delta_of(bag) {
        Ok(d) => if is_subscribed(s, id, handle) {
            TrackerView { entries: after_delta(s.entries, id, d, keys, now), pending: s.pending }
        } else {
            s
        },
        Err(_) => s,
    }
}

/// Whether a polled position for `id` is still wanted: `id` has an entry and
/// its status is `Playing`.
pub open spec fn wants_position(s: TrackerView, id: Seq<char>) -> bool {
    playing(s.entries).contains(id)
}

/// The state after a polled position for `id` has come back as `value`, or as
/// nothing where the fetch failed: the position is written where the value is
/// an integer and the position is still wanted; else nothing changes.
pub open spec fn after_position(s: TrackerView, id: Seq<char>, value: Option<Value>, now: u64) -> TrackerView {
    match int64_of(value) {
        Some(p) => if wants_position(s, id) {
            TrackerView {
                entries: after_delta(s.entries, id, position_only(p), Seq::empty(), now),
                pending: s.pending,
            }
        } else {
            s
        },
        None => s,
    }
}

/// What a polled position for `id` leads to.
pub open spec fn poll_outcome(s: TrackerView, id: Seq<char>, value: Option<Value>) -> PollOutcome {
    match value {
        None => PollOutcome::Failed,
        Some(_) => match int64_of(value) {
            None => PollOutcome::Unreadable,
            Some(_) => if wants_position(s, id) {
                PollOutcome::Updated
            } else {
                PollOutcome::Stale
            },
        },
    }
}

/// The state after the subscription `handle` of `id` has ended: the entry
/// of `id` is gone where it held this subscription; else nothing changes.
pub open spec fn after_end(s: TrackerView, id: Seq<char>, handle: u64) -> TrackerView {
    if is_subscribed(s, id, handle) {
        TrackerView { entries: s.entries.remove(id), pending: s.pending }
    } else {
        s
    }
}

/// Takes every occurrence of `id` out of `list`.
fn forget(list: &mut Vec<String>, id: &str)
    ensures
        texts(*final(list)).to_set() == texts(*old(list)).to_set().remove(id@),
{
    let mut out: Vec<String> = Vec::new();
    let mut i: usize = 0;
    while i < list.len()
        invariant
            i <= list@.len(),
            forall|j: int| 0 <= j < out@.len() ==> (#[trigger] out@[j])@ != id@ && texts(*list).contains(out@[j]@),
            forall|j: int| 0 <= j < i && list@[j]@ != id@ ==> texts(out).contains(#[trigger] list@[j]@),
        decreases list@.len() - i,
    {
        let ghost before = texts(out);
        assert(texts(*list)[i as int] == list@[i as int]@);
        if !same_text(list[i].as_str(), id) {
            out.push(list[i].clone());
            assert(texts(out)[before.len() as int] == list@[i as int]@);
        }
        assert forall|j: int| 0 <= j < i && list@[j]@ != id@ implies texts(out).contains(#[trigger] list@[j]@) by {
            let t = list@[j]@;
            assert(before.contains(t));
            let k = choose|k: int| 0 <= k < before.len() && before[k] == t;
            assert(texts(out)[k] == t);
        }
        i += 1;
    }
    proof {
        let a = texts(out).to_set();
        let b = texts(*list).to_set().remove(id@);
        assert forall|t: Seq<char>| a.contains(t) <==> b.contains(t) by {
            if a.contains(t) {
                let k = choose|k: int| 0 <= k < texts(out).len() && texts(out)[k] == t;
                assert(out@[k]@ == t);
            }
            if b.contains(t) {
                let k = choose|k: int| 0 <= k < texts(*list).len() && texts(*list)[k] == t;
                assert(list@[k]@ == t);
            }
        }
        assert(a =~= b);
    }
    *list = out;
}

/// Adds `id` to `list`.
fn remember(list: &mut Vec<String>, id: &str)
    ensures
        texts(*final(list)).to_set() == texts(*old(list)).to_set().insert(id@),
{
    let ghost before = texts(*list);
    list.push(copy_text(id));
    proof {
        assert(texts(*list) =~= before.push(id@));
        before.lemma_push_to_set_commute(id@);
    }
}

/// The tracker: the registry, and the players whose fetch is under way.
pub struct Tracker {
    registry: Registry,
    pending: Vec<String>,
}

impl View for Tracker {
    type V = TrackerView;

    closed spec fn view(&self) -> TrackerView {
        TrackerView { entries: self.registry@, pending: texts(self.pending).to_set() }
    }
}

impl Tracker {
    /// A tracker that knows no player.
    pub fn new() -> (r: Tracker)
        ensures
            r@.entries == no_entries(),
            r@.pending == Set::<Seq<char>>::empty(),
    {
        let t = Tracker { registry: Registry::new(), pending: Vec::new() };
        assert(texts(t.pending).to_set() =~= Set::<Seq<char>>::empty());
        t
    }

    /// Takes note that the ownership of `name` has changed. The entry of a
    /// player's name is removed at once, whichever way the change went, so
    /// that none outlives its owner; a name that is owned now waits for its
    /// fetch.
    pub fn owner_changed(&mut self, name: &str, to: Ownership) -> (action: OwnerAction)
        ensures
            final(self)@ == after_owner_change(old(self)@, name@, to),
            action == owner_action(old(self)@, name@, to),
            action.cancel_of() == released(old(self)@, Step::Owner { name: name@, to }),
    {
        if !is_player(name) {
            return OwnerAction::Ignore;
        }
        let cancel = self.registry.remove(name);
        forget(&mut self.pending, name);
        match to {
            Ownership::Owned => {
                remember(&mut self.pending, name);
                assert(self@.pending =~= old(self)@.pending.insert(name@));
                OwnerAction::Fetch { cancel }
            },
            Ownership::Unowned => OwnerAction::Forget { cancel },
        }
    }

    /// Takes in what the fetch for `identity` brought, or that it failed.
    /// An entry is made exactly where the fetch is still waited for and the
    /// bag spells a snapshot; the outcome names every subscription that the
    /// registry does not hold afterwards and that is therefore to be
    /// cancelled.
    pub fn fetch_completed(&mut self, identity: &str, fetched: Option<Fetched>, now: u64) -> (outcome: FetchOutcome)
        ensures
            final(self)@ == after_fetch(old(self)@, identity@, fetched_view(fetched), now),
            outcome.cancel_of() == released(
                old(self)@,
                Step::Fetched { id: identity@, fetched: fetched_view(fetched), now },
            ),
            match outcome {
                FetchOutcome::Added { warnings, replaced } => {
                    &&& old(self)@.pending.contains(identity@)
                    &&& fetched.is_some()
                    &&& snapshot_of(fetched.unwrap().bag@).is_ok()
                    &&& warns_of(warnings@, fetched.unwrap().bag@)
                    &&& replaced == handle_at(old(self)@.entries, identity@)
                },
                FetchOutcome::Malformed { field, cancel } => {
                    &&& old(self)@.pending.contains(identity@)
                    &&& fetched.is_some()
                    &&& snapshot_of(fetched.unwrap().bag@) == Err::<PropertiesView, PropertyName>(field)
                    &&& cancel == fetched.unwrap().handle
                },
                FetchOutcome::Stale { cancel } => {
                    &&& !old(self)@.pending.contains(identity@)
                    &&& cancel == match fetched {
                        Some(f) => Some(f.handle),
                        None => None,
                    }
                },
                FetchOutcome::Failed => old(self)@.pending.contains(identity@) && fetched.is_none(),
            },
    {
        if !contains_text(&self.pending, identity) {
            return FetchOutcome::Stale {
                cancel: match fetched {
                    Some(f) => Some(f.handle),
                    None => None,
                },
            };
        }
        forget(&mut self.pending, identity);
        match fetched {
            None => FetchOutcome::Failed,
            Some(f) => match decode_full(&f.bag) {
                Err(e) => match e {
                    DecodeError::MalformedSource { field } => FetchOutcome::Malformed { field, cancel: f.handle },
                },
                Ok(d) => {
                    let replaced = self.registry.upsert_full(copy_text(identity), d.properties, f.handle, now);
                    FetchOutcome::Added { warnings: d.warnings, replaced }
                },
            },
        }
    }

    /// Takes in a change notification that the subscription `handle` brought
    /// for `identity`: a bag of changed properties and the names of
    /// invalidated ones. Only the subscription that the entry holds can
    /// change it: a notification for a player without an entry, or from a
    /// subscription that was given back for cancelling, changes nothing and
    /// makes no entry. One that cannot be read is dropped and the entry
    /// stays.
    pub fn properties_changed(
        &mut self,
        identity: &str,
        handle: u64,
        bag: &Vec<Item>,
        invalidated_keys: &Vec<String>,
        now: u64,
    ) -> (outcome: ChangeOutcome)
        ensures
            final(self)@ == after_change(old(self)@, identity@, handle, bag@, texts(*invalidated_keys), now),
            match outcome {
                ChangeOutcome::Applied { warnings } => {
                    &&& delta_of(bag@).is_ok()
                    &&& is_subscribed(old(self)@, identity@, handle)
                    &&& warns_of(warnings@, bag@)
                },
                ChangeOutcome::Stale => delta_of(bag@).is_ok() && !is_subscribed(old(self)@, identity@, handle),
                ChangeOutcome::Dropped { field } => delta_of(bag@) == Err::<crate::properties::DeltaView, PropertyName>(
                    field,
                ),
            },
    {
        match decode_delta(bag) {
            Err(e) => match e {
                DecodeError::MalformedSource { field } => ChangeOutcome::Dropped { field },
            },
            Ok(d) => {
                if self.holds(identity, handle) {
                    let _ = self.registry.apply_delta(identity, d.delta, invalidated_keys, now);
                    ChangeOutcome::Applied { warnings: d.warnings }
                } else {
                    ChangeOutcome::Stale
                }
            },
        }
    }

    /// Whether the entry of `identity` holds the subscription `handle`.
    pub fn holds(&self, identity: &str, handle: u64) -> (r: bool)
        ensures
            r == is_subscribed(self@, identity@, handle),
    {
        match self.registry.entry(identity) {
            Some(e) => e.handle == handle,
            None => false,
        }
    }

    /// Takes note that the subscription `handle` of `identity` has ended for
    /// good. Where the entry of `identity` holds this subscription the entry
    /// is removed, as if the player had lost its owner, and the handle is
    /// handed back; else nothing changes.
    pub fn subscription_ended(&mut self, identity: &str, handle: u64) -> (cancel: Option<u64>)
        ensures
            final(self)@ == after_end(old(self)@, identity@, handle),
            cancel == released(old(self)@, Step::Ended { id: identity@, handle }),
    {
        if self.holds(identity, handle) {
            self.registry.remove(identity)
        } else {
            None
        }
    }

    /// The players to poll on this tick: those with an entry whose status is
    /// `Playing`, each once, and no other.
    pub fn poll_targets(&self) -> (r: Vec<String>)
        ensures
            texts(r).no_duplicates(),
            texts(r).to_set() == playing(self@.entries),
    {
        let all = self.registry.list();
        let mut out: Vec<String> = Vec::new();
        let mut i: usize = 0;
        while i < all.len()
            invariant
                i <= all@.len(),
                texts(all).no_duplicates(),
                texts(all).to_set() == self.registry@.dom(),
                texts(out).no_duplicates(),
                forall|j: int|
                    0 <= j < out@.len() ==> playing(self.registry@).contains((#[trigger] out@[j])@) && exists|k: int|
                        0 <= k < i && all@[k]@ == out@[j]@,
                forall|k: int|
                    0 <= k < i && playing(self.registry@).contains(all@[k]@) ==> texts(out).contains(
                        #[trigger] all@[k]@,
                    ),
            decreases all@.len() - i,
        {
            let ghost before = texts(out);
            let ghost here = all@[i as int]@;
            assert(texts(all)[i as int] == here);
            let is_playing = match self.registry.get(all[i].as_str()) {
                Some(p) => match p.playback_status {
                    PlaybackStatus::Playing => true,
                    _ => false,
                },
                None => false,
            };
            if is_playing {
                assert forall|j: int| 0 <= j < before.len() implies before[j] != here by {
                    let k = choose|k: int| 0 <= k < i && all@[k]@ == out@[j]@;
                    assert(texts(all)[k] == all@[k]@);
                }
                out.push(copy_text(all[i].as_str()));
                assert(texts(out) =~= before.push(here));
            }
            assert forall|k: int| 0 <= k < i + 1 && playing(self.registry@).contains(all@[k]@) implies texts(
                out,
            ).contains(#[trigger] all@[k]@) by {
                let t = all@[k]@;
                if k < i {
                    assert(before.contains(t));
                    let j = choose|j: int| 0 <= j < before.len() && before[j] == t;
                    assert(texts(out)[j] == t);
                } else {
                    assert(texts(out)[before.len() as int] == t);
                }
            }
            i += 1;
        }
        proof {
            let a = texts(out).to_set();
            let b = playing(self.registry@);
            assert forall|t: Seq<char>| a.contains(t) <==> b.contains(t) by {
                if a.contains(t) {
                    let j = choose|j: int| 0 <= j < texts(out).len() && texts(out)[j] == t;
                    assert(out@[j]@ == t);
                }
                if b.contains(t) {
                    assert(texts(all).to_set().contains(t));
                    let k = choose|k: int| 0 <= k < texts(all).len() && texts(all)[k] == t;
                    assert(all@[k]@ == t);
                }
            }
            assert(a =~= b);
        }
        out
    }

    /// Takes in the position that a poll of `identity` brought, or that the
    /// fetch failed. The position is written only where the player still has
    /// an entry and is still playing; nothing else of the entry changes but
    /// the time of its last update.
    pub fn position_fetched(&mut self, identity: &str, value: Option<&Value>, now: u64) -> (outcome: PollOutcome)
        ensures
            final(self)@ == after_position(old(self)@, identity@, held(value), now),
            outcome == poll_outcome(old(self)@, identity@, held(value)),
    {
        let position = match value {
            None => {
                return PollOutcome::Failed;
            },
            Some(v) => match crate::value::read_i64(v) {
                None => {
                    return PollOutcome::Unreadable;
                },
                Some(p) => p,
            },
        };
        let is_playing = match self.registry.get(identity) {
            Some(p) => match p.playback_status {
                PlaybackStatus::Playing => true,
                _ => false,
            },
            None => false,
        };
        if !is_playing {
            return PollOutcome::Stale;
        }
        let none: Vec<String> = Vec::new();
        assert(texts(none) =~= Seq::<Seq<char>>::empty());
        let _ = self.registry.apply_delta(identity, Delta::position(position), &none, now);
        PollOutcome::Updated
    }

    /// The players that have an entry, each once, in no fixed order.
    pub fn list_active_sources(&self) -> (r: Vec<String>)
        ensures
            texts(r).no_duplicates(),
            texts(r).to_set() == self@.entries.dom(),
    {
        self.registry.list()
    }

    /// The snapshot of `identity`, or `NotFound` where it has no entry.
    pub fn get_snapshot(&self, identity: &str) -> (r: Result<Properties, NotFound>)
        ensures
            match r {
                Ok(p) => self@.entries.contains_key(identity@) && self@.entries[identity@].snapshot == p@,
                Err(_) => !self@.entries.contains_key(identity@),
            },
    {
        match self.registry.get(identity) {
            Some(p) => Ok(p),
            None => Err(NotFound),
        }
    }

    /// Whether a fetch for `identity` is under way.
    pub fn is_pending(&self, identity: &str) -> (r: bool)
        ensures
            r == self@.pending.contains(identity@),
    {
        contains_text(&self.pending, identity)
    }
}

/// What the display is told after an event.
#[derive(Clone, Copy, Debug, PartialEq, Eq, Structural)]
pub enum Notice {
    /// The snapshot of the player was written.
    Updated,
    /// The player's entry was removed.
    Removed,
    /// Nothing that the display shows has changed.
    Nothing,
}

/// `Removed` where a handle is named: an entry held it and is gone.
pub open spec fn removal_notice(cancel: Option<u64>) -> Notice {
    if cancel.is_some() {
        Notice::Removed
    } else {
        Notice::Nothing
    }
}

impl OwnerAction {
    /// What the display is told: `Removed` where the change took an entry
    /// out of the registry, else nothing.
    pub open spec fn notice_of(self) -> Notice {
        match self {
            OwnerAction::Ignore => Notice::Nothing,
            OwnerAction::Forget { cancel } => removal_notice(cancel),
            OwnerAction::Fetch { cancel } => removal_notice(cancel),
        }
    }

    /// What the display is told: `Removed` where the change took an entry
    /// out of the registry, else nothing.
    pub fn notice(&self) -> (r: Notice)
        ensures
            r == self.notice_of(),
    {
        let cancel = match self {
            OwnerAction::Ignore => None,
            OwnerAction::Forget { cancel } => *cancel,
            OwnerAction::Fetch { cancel } => *cancel,
        };
        if cancel.is_some() {
            Notice::Removed
        } else {
            Notice::Nothing
        }
    }
}

impl OwnerAction {
    /// The subscription that the caller is to cancel, if there is one.
    pub open spec fn cancel_of(self) -> Option<u64> {
        match self {
            OwnerAction::Ignore => None,
            OwnerAction::Forget { cancel } => cancel,
            OwnerAction::Fetch { cancel } => cancel,
        }
    }

    /// The subscription that the caller is to cancel, if there is one.
    pub fn to_cancel(&self) -> (r: Option<u64>)
        ensures
            r == self.cancel_of(),
    {
        match self {
            OwnerAction::Ignore => None,
            OwnerAction::Forget { cancel } => *cancel,
            OwnerAction::Fetch { cancel } => *cancel,
        }
    }
}

impl FetchOutcome {
    /// The subscription that the caller is to cancel, if there is one.
    pub open spec fn cancel_of(self) -> Option<u64> {
        match self {
            FetchOutcome::Added { replaced, .. } => replaced,
            FetchOutcome::Malformed { cancel, .. } => Some(cancel),
            FetchOutcome::Stale { cancel } => cancel,
            FetchOutcome::Failed => None,
        }
    }

    /// The subscription that the caller is to cancel, if there is one.
    pub fn to_cancel(&self) -> (r: Option<u64>)
        ensures
            r == self.cancel_of(),
    {
        match self {
            FetchOutcome::Added { replaced, .. } => *replaced,
            FetchOutcome::Malformed { cancel, .. } => Some(*cancel),
            FetchOutcome::Stale { cancel } => *cancel,
            FetchOutcome::Failed => None,
        }
    }

    /// What the display is told: `Updated` where an entry was made, else
    /// nothing.
    pub fn notice(&self) -> (r: Notice)
        ensures
            r == if self is Added {
                Notice::Updated
            } else {
                Notice::Nothing
            },
    {
        match self {
            FetchOutcome::Added { .. } => Notice::Updated,
            _ => Notice::Nothing,
        }
    }
}

impl ChangeOutcome {
    /// What the display is told: `Updated` where the changes were merged,
    /// else nothing.
    pub fn notice(&self) -> (r: Notice)
        ensures
            r == if self is Applied {
                Notice::Updated
            } else {
                Notice::Nothing
            },
    {
        match self {
            ChangeOutcome::Applied { .. } => Notice::Updated,
            _ => Notice::Nothing,
        }
    }
}

impl PollOutcome {
    /// What the display is told: `Updated` where the position was written,
    /// else nothing.
    pub fn notice(&self) -> (r: Notice)
        ensures
            r == if self is Updated {
                Notice::Updated
            } else {
                Notice::Nothing
            },
    {
        match self {
            PollOutcome::Updated => Notice::Updated,
            _ => Notice::Nothing,
        }
    }
}

/// Lets one poll run at a time: a tick that comes due while the work of the
/// tick before it is not finished is skipped, not queued.
pub struct Poller {
    running: bool,
}

impl View for Poller {
    type V = bool;

    closed spec fn view(&self) -> bool {
        self.running
    }
}

impl Poller {
    /// A poller that is not at work.
    pub fn new() -> (r: Poller)
        ensures
            !r@,
    {
        Poller { running: false }
    }

    /// Takes note that a tick is due. Where the poller is at work the tick is
    /// skipped and nothing is to be fetched; else the poller is at work from
    /// now on, and the players to ask are those that `tracker` names as
    /// targets.
    pub fn tick(&mut self, tracker: &Tracker) -> (r: Option<Vec<String>>)
        ensures
            final(self)@,
            r is None <==> old(self)@,
            r matches Some(targets) ==> texts(targets).no_duplicates() && texts(targets).to_set() == playing(
                tracker@.entries,
            ),
    {
        if self.running {
            None
        } else {
            self.running = true;
            Some(tracker.poll_targets())
        }
    }

    /// Takes note that the work of the last tick is finished.
    pub fn finished(&mut self)
        ensures
            !final(self)@,
    {
        self.running = false;
    }
}

/// The handles of the entries of `m`.
pub open spec fn handles(m: Map<Seq<char>, EntryView>) -> Set<u64> {
    Set::new(|h: u64| exists|id: Seq<char>| m.contains_key(id) && #[trigger] m[id].handle == h)
}

impl Tracker {
    /// Ends the tracking: every entry is removed and no fetch is waited for
    /// any more. Hands back the handles of all entries, one for each entry,
    /// for the caller to cancel.
    pub fn shutdown(&mut self) -> (cancel: Vec<u64>)
        ensures
            final(self)@.entries == no_entries(),
            final(self)@.pending == Set::<Seq<char>>::empty(),
            cancel@.len() == old(self)@.entries.dom().len(),
            cancel@.to_set() == handles(old(self)@.entries),
    {
        let all = self.registry.list();
        let ghost start = self.registry@;
        proof {
            texts(all).unique_seq_to_set();
        }
        let mut out: Vec<u64> = Vec::new();
        let mut i: usize = 0;
        proof {
            assert forall|id: Seq<char>|
                start.contains_key(id) <==> exists|k: int| 0 <= k < all@.len() && #[trigger] all@[k]@ == id by {
                if start.contains_key(id) {
                    assert(texts(all).to_set().contains(id));
                    let k = choose|k: int| 0 <= k < texts(all).len() && texts(all)[k] == id;
                    assert(all@[k]@ == id);
                }
                if exists|k: int| 0 <= k < all@.len() && #[trigger] all@[k]@ == id {
                    let k = choose|k: int| 0 <= k < all@.len() && #[trigger] all@[k]@ == id;
                    assert(texts(all)[k] == id);
                }
            }
        }
        while i < all.len()
            invariant
                i <= all@.len(),
                texts(all).no_duplicates(),
                texts(all).to_set() == start.dom(),
                out@.len() == i,
                forall|j: int| 0 <= j < i ==> out@[j] == start[#[trigger] all@[j]@].handle,
                forall|id: Seq<char>|
                    self.registry@.contains_key(id) <==> exists|k: int| i <= k < all@.len() && #[trigger] all@[k]@ == id,
                forall|id: Seq<char>|
                    #[trigger] self.registry@.contains_key(id) ==> start.contains_key(id) && self.registry@[id]
                        == start[id],
            decreases all@.len() - i,
        {
            let ghost here = all@[i as int]@;
            let ghost before = self.registry@;
            assert(texts(all)[i as int] == here);
            assert(before.contains_key(here));
            let removed = self.registry.remove(all[i].as_str());
            assert(removed.is_some());
            if let Some(h) = removed {
                out.push(h);
            }
            assert forall|id: Seq<char>|
                self.registry@.contains_key(id) <==> exists|k: int| i + 1 <= k < all@.len() && #[trigger] all@[k]@ == id by {
                if self.registry@.contains_key(id) {
                    let k = choose|k: int| i <= k < all@.len() && #[trigger] all@[k]@ == id;
                    assert(k != i);
                }
                if exists|k: int| i + 1 <= k < all@.len() && #[trigger] all@[k]@ == id {
                    let k = choose|k: int| i + 1 <= k < all@.len() && #[trigger] all@[k]@ == id;
                    assert(texts(all)[k] == id);
                    assert(id != here);
                    assert(before.contains_key(id));
                }
            }
            i += 1;
        }
        self.pending = Vec::new();
        proof {
            assert(self.registry@ =~= no_entries());
            assert(texts(self.pending).to_set() =~= Set::<Seq<char>>::empty());
            assert forall|h: u64| out@.to_set().contains(h) <==> handles(start).contains(h) by {
                if out@.contains(h) {
                    let j = choose|j: int| 0 <= j < out@.len() && out@[j] == h;
                    assert(texts(all)[j] == all@[j]@);
                    assert(start.dom().contains(all@[j]@));
                    assert(start.contains_key(all@[j]@) && start[all@[j]@].handle == h);
                }
                if handles(start).contains(h) {
                    let id = choose|id: Seq<char>| start.contains_key(id) && #[trigger] start[id].handle == h;
                    assert(texts(all).to_set().contains(id));
                    let k = choose|k: int| 0 <= k < texts(all).len() && texts(all)[k] == id;
                    assert(out@[k] == h);
                }
            }
            assert(out@.to_set() =~= handles(start));
        }
        out
    }
}

/// What a fetch brought, as a bag and a handle.
pub open spec fn fetched_view(fetched: Option<Fetched>) -> Option<(Seq<Item>, u64)> {
    match fetched {
        Some(f) => Some((f.bag@, f.handle)),
        None => None,
    }
}

/// One ownership change as it is worked off in the order of arrival: the
/// change itself and, for a name that is owned now, what its fetch brought.
pub ghost struct OwnerEvent {
    pub name: Seq<char>,
    pub to: Ownership,
    pub fetched: Option<(Seq<Item>, u64)>,
    pub now: u64,
}

/// The state after one ownership change has been worked off: the change is
/// noted and, where a fetch was asked for, what it brought is taken in.
pub open spec fn after_event(s: TrackerView, e: OwnerEvent) -> TrackerView {
    if owner_action(s, e.name, e.to) is Fetch {
        after_fetch(after_owner_change(s, e.name, e.to), e.name, e.fetched, e.now)
    } else {
        after_owner_change(s, e.name, e.to)
    }
}

/// The state after a sequence of ownership changes has been worked off from
/// left to right.
pub open spec fn replay(s: TrackerView, events: Seq<OwnerEvent>) -> TrackerView
    decreases events.len(),
{
    if events.len() == 0 {
        s
    } else {
        after_event(replay(s, events.drop_last()), events.last())
    }
}

/// Whether the event adds its name: the name is a player's, it is owned now,
/// and its fetch brought a bag that spells a snapshot.
pub open spec fn adds(e: OwnerEvent) -> bool {
    &&& is_player_name(e.name)
    &&& e.to == Ownership::Owned
    &&& e.fetched.is_some()
    &&& snapshot_of(e.fetched.unwrap().0).is_ok()
}

/// The members after a sequence of events, folded from left to right: an
/// event that adds its name puts it in, any other event for a player's name
/// takes it out.
pub open spec fn fold_members(start: Set<Seq<char>>, events: Seq<OwnerEvent>) -> Set<Seq<char>>
    decreases events.len(),
{
    if events.len() == 0 {
        start
    } else {
        let before = fold_members(start, events.drop_last());
        let e = events.last();
        if adds(e) {
            before.insert(e.name)
        } else if is_player_name(e.name) {
            before.remove(e.name)
        } else {
            before
        }
    }
}

/// The events of `events` that are about `id`, in their order.
pub open spec fn events_of(events: Seq<OwnerEvent>, id: Seq<char>) -> Seq<OwnerEvent>
    decreases events.len(),
{
    if events.len() == 0 {
        Seq::empty()
    } else if events.last().name == id {
        events_of(events.drop_last(), id).push(events.last())
    } else {
        events_of(events.drop_last(), id)
    }
}

/// Working off ownership changes in order leaves exactly the members that
/// folding them gives: the identities with an entry after the replay are
/// those of the fold over the same events.
pub proof fn lemma_replay_members(s: TrackerView, events: Seq<OwnerEvent>)
    ensures
        replay(s, events).entries.dom() == fold_members(s.entries.dom(), events),
    decreases events.len(),
{
    if events.len() > 0 {
        lemma_replay_members(s, events.drop_last());
        let before = replay(s, events.drop_last());
        let e = events.last();
        let noted = after_owner_change(before, e.name, e.to);
        if is_player_name(e.name) {
            assert(noted.entries.dom() =~= before.entries.dom().remove(e.name));
            if adds(e) {
                assert(noted.pending.contains(e.name));
                assert(after_event(before, e).entries.dom() =~= before.entries.dom().insert(e.name));
            }
        }
        assert(after_event(before, e).entries.dom() =~= fold_members(s.entries.dom(), events));
    }
}

/// Whether an identity is a member after a sequence of events depends on the
/// events about that identity alone, in their order: events about other
/// identities, however they are interleaved, change nothing of it.
pub proof fn lemma_members_by_own_events(start: Set<Seq<char>>, events: Seq<OwnerEvent>, id: Seq<char>)
    ensures
        fold_members(start, events).contains(id) == fold_members(start, events_of(events, id)).contains(id),
    decreases events.len(),
{
    if events.len() > 0 {
        lemma_members_by_own_events(start, events.drop_last(), id);
        let e = events.last();
        if e.name == id {
            let own = events_of(events.drop_last(), id);
            assert(own.push(e).drop_last() =~= own);
            assert(own.push(e).last() == e);
        }
    }
}

/// The membership of an identity after a replay is that of the fold over its
/// own events.
pub proof fn lemma_replay_by_own_events(s: TrackerView, events: Seq<OwnerEvent>, id: Seq<char>)
    ensures
        replay(s, events).entries.contains_key(id) == fold_members(s.entries.dom(), events_of(events, id)).contains(
            id,
        ),
{
    lemma_replay_members(s, events);
    lemma_members_by_own_events(s.entries.dom(), events, id);
}

/// A player that loses its owner while its fetch is under way stays absent:
/// whatever the fetch brings afterwards, the name has no entry and is not
/// waited for, and nothing else has changed.
pub proof fn lemma_lost_before_fetched(s: TrackerView, name: Seq<char>, fetched: Option<(Seq<Item>, u64)>, now: u64)
    requires
        is_player_name(name),
    ensures
        ({
            let lost = after_owner_change(after_owner_change(s, name, Ownership::Owned), name, Ownership::Unowned);
            let end = after_fetch(lost, name, fetched, now);
            &&& end == lost
            &&& !end.entries.contains_key(name)
            &&& !end.pending.contains(name)
        }),
{
}

/// A change notification that comes late, after its player has lost its
/// owner, changes nothing and brings no entry back, whatever subscription
/// brought it.
pub proof fn lemma_late_change_is_dropped(
    s: TrackerView,
    name: Seq<char>,
    handle: u64,
    bag: Seq<Item>,
    keys: Seq<Seq<char>>,
    now: u64,
)
    requires
        is_player_name(name),
    ensures
        ({
            let lost = after_owner_change(s, name, Ownership::Unowned);
            &&& after_change(lost, name, handle, bag, keys, now) == lost
            &&& !lost.entries.contains_key(name)
        }),
{
}

/// A subscription that was given back for cancelling can change nothing any
/// more: after the step that released it, neither a notification that it
/// still brings nor its end touches the state, unless a later fetch hands
/// the same handle in again.
pub proof fn lemma_cancelled_subscription_is_mute(
    s: TrackerView,
    step: Step,
    bag: Seq<Item>,
    keys: Seq<Seq<char>>,
    now: u64,
)
    requires
        released(s, step).is_some(),
        taken(step) != released(s, step),
    ensures
        ({
            let end = after_step(s, step);
            let handle = released(s, step).unwrap();
            &&& after_change(end, subject(step), handle, bag, keys, now) == end
            &&& after_end(end, subject(step), handle) == end
        }),
{
    lemma_released_is_detached(s, step);
}

/// A player whose last known status is `Paused` or `Stopped`, or that has no
/// entry, is no target of a poll, and a position that comes back for it is
/// not written.
pub proof fn lemma_idle_is_not_polled(s: TrackerView, id: Seq<char>, value: Option<Value>, now: u64)
    requires
        !s.entries.contains_key(id) || s.entries[id].snapshot.playback_status != PlaybackStatus::Playing,
    ensures
        !playing(s.entries).contains(id),
        after_position(s, id, value, now) == s,
{
}

/// A polled position changes the position of its player and the time of the
/// entry's last update, and nothing else of the registry.
pub proof fn lemma_position_touches_position_only(s: TrackerView, id: Seq<char>, value: Option<Value>, now: u64)
    requires
        wants_position(s, id),
        int64_of(value).is_some(),
    ensures
        ({
            let end = after_position(s, id, value, now);
            &&& end.entries.dom() == s.entries.dom()
            &&& end.pending == s.pending
            &&& end.entries[id].handle == s.entries[id].handle
            &&& end.entries[id].updated_at == now
            &&& end.entries[id].snapshot == (PropertiesView {
                position: int64_of(value),
                ..s.entries[id].snapshot
            })
        }),
{
    let end = after_position(s, id, value, now);
    assert(end.entries.dom() =~= s.entries.dom());
    assert(forall|k: Seq<char>| !Seq::<Seq<char>>::empty().contains(k));
}

/// One input of the tracker, whatever its kind.
pub ghost enum Step {
    Owner { name: Seq<char>, to: Ownership },
    Fetched { id: Seq<char>, fetched: Option<(Seq<Item>, u64)>, now: u64 },
    Changed { id: Seq<char>, handle: u64, bag: Seq<Item>, keys: Seq<Seq<char>>, now: u64 },
    Ended { id: Seq<char>, handle: u64 },
    Position { id: Seq<char>, value: Option<Value>, now: u64 },
}

/// The identity that a step is about.
pub open spec fn subject(step: Step) -> Seq<char> {
    match step {
        Step::Owner { name, .. } => name,
        Step::Fetched { id, .. } => id,
        Step::Changed { id, .. } => id,
        Step::Ended { id, .. } => id,
        Step::Position { id, .. } => id,
    }
}

/// The state after one step.
pub open spec fn after_step(s: TrackerView, step: Step) -> TrackerView {
    match step {
        Step::Owner { name, to } => after_owner_change(s, name, to),
        Step::Fetched { id, fetched, now } => after_fetch(s, id, fetched, now),
        Step::Changed { id, handle, bag, keys, now } => after_change(s, id, handle, bag, keys, now),
        Step::Ended { id, handle } => after_end(s, id, handle),
        Step::Position { id, value, now } => after_position(s, id, value, now),
    }
}

/// The state after a sequence of steps, taken from left to right.
pub open spec fn run(s: TrackerView, steps: Seq<Step>) -> TrackerView
    decreases steps.len(),
{
    if steps.len() == 0 {
        s
    } else {
        after_step(run(s, steps.drop_last()), steps.last())
    }
}

/// The steps of `steps` that are about `id`, in their order.
pub open spec fn steps_of(steps: Seq<Step>, id: Seq<char>) -> Seq<Step>
    decreases steps.len(),
{
    if steps.len() == 0 {
        Seq::empty()
    } else if subject(steps.last()) == id {
        steps_of(steps.drop_last(), id).push(steps.last())
    } else {
        steps_of(steps.drop_last(), id)
    }
}

/// What the tracker knows of one identity: its entry, if it has one, and
/// whether its fetch is under way.
pub open spec fn known_of(s: TrackerView, id: Seq<char>) -> (Option<EntryView>, bool) {
    (
        if s.entries.contains_key(id) {
            Some(s.entries[id])
        } else {
            None
        },
        s.pending.contains(id),
    )
}

/// A step changes nothing of what is known of any identity but its own.
pub proof fn lemma_step_is_local(s: TrackerView, step: Step, id: Seq<char>)
    requires
        subject(step) != id,
    ensures
        known_of(after_step(s, step), id) == known_of(s, id),
{
}

/// What a step makes known of its own identity depends only on what was
/// known of that identity before.
pub proof fn lemma_step_reads_its_own(a: TrackerView, b: TrackerView, step: Step)
    requires
        known_of(a, subject(step)) == known_of(b, subject(step)),
    ensures
        known_of(after_step(a, step), subject(step)) == known_of(after_step(b, step), subject(step)),
{
}

/// What is known of an identity after a sequence of steps is what its own
/// steps alone, in their order, would have made known: steps about other
/// identities may be interleaved in any way.
pub proof fn lemma_run_by_own_steps(s: TrackerView, steps: Seq<Step>, id: Seq<char>)
    ensures
        known_of(run(s, steps), id) == known_of(run(s, steps_of(steps, id)), id),
    decreases steps.len(),
{
    if steps.len() > 0 {
        let rest = steps.drop_last();
        let last = steps.last();
        lemma_run_by_own_steps(s, rest, id);
        if subject(last) == id {
            let own = steps_of(rest, id);
            assert(own.push(last).drop_last() =~= own);
            assert(own.push(last).last() == last);
            lemma_step_reads_its_own(run(s, rest), run(s, own), last);
        } else {
            lemma_step_is_local(run(s, rest), last, id);
        }
    }
}

/// Whether `id` has an owner after `steps`: the last ownership change of
/// `id` among them made it owned.
pub open spec fn owned_after(steps: Seq<Step>, id: Seq<char>) -> bool
    decreases steps.len(),
{
    if steps.len() == 0 {
        false
    } else {
        match steps.last() {
            Step::Owner { name, to } => if name == id {
                to == Ownership::Owned
            } else {
                owned_after(steps.drop_last(), id)
            },
            _ => owned_after(steps.drop_last(), id),
        }
    }
}

/// The state of a tracker that knows no player.
pub open spec fn nothing_known() -> TrackerView {
    TrackerView { entries: no_entries(), pending: Set::empty() }
}

/// A tracker that started without players never holds an entry, nor waits
/// for a fetch, for a name that is no player's or that has no owner.
pub proof fn lemma_entries_have_owners(steps: Seq<Step>, id: Seq<char>)
    requires
        run(nothing_known(), steps).entries.contains_key(id) || run(nothing_known(), steps).pending.contains(id),
    ensures
        is_player_name(id),
        owned_after(steps, id),
    decreases steps.len(),
{
    if steps.len() > 0 {
        let rest = steps.drop_last();
        let before = run(nothing_known(), rest);
        let last = steps.last();
        if subject(last) != id {
            lemma_step_is_local(before, last, id);
            lemma_entries_have_owners(rest, id);
        } else {
            match last {
                Step::Owner { name, to } => {
                    if !is_player_name(id) {
                        lemma_entries_have_owners(rest, id);
                    }
                },
                _ => {
                    assert(before.entries.contains_key(id) || before.pending.contains(id));
                    lemma_entries_have_owners(rest, id);
                },
            }
        }
    }
}

/// The subscription that a step hands to the tracker, if it hands one.
pub open spec fn taken(step: Step) -> Option<u64> {
    match step {
        Step::Fetched { fetched: Some((_, handle)), .. } => Some(handle),
        _ => None,
    }
}

/// The subscription that the tracker gives back for cancelling after a step,
/// if it gives one back.
pub open spec fn released(s: TrackerView, step: Step) -> Option<u64> {
    match step {
        Step::Owner { name, .. } => if is_player_name(name) {
            handle_at(s.entries, name)
        } else {
            None
        },
        Step::Fetched { id, fetched, .. } => match fetched {
            None => None,
            Some((bag, handle)) => if s.pending.contains(id) && snapshot_of(bag).is_ok() {
                handle_at(s.entries, id)
            } else {
                Some(handle)
            },
        },
        Step::Ended { id, handle } => if is_subscribed(s, id, handle) {
            Some(handle)
        } else {
            None
        },
        _ => None,
    }
}

/// No subscription is lost: a handle that an entry held before a step, or
/// that the step handed in, is held by an entry afterwards or was given back
/// for cancelling.
pub proof fn lemma_no_handle_is_lost(s: TrackerView, step: Step, h: u64)
    requires
        handles(s.entries).contains(h) || taken(step) == Some(h),
    ensures
        handles(after_step(s, step).entries).contains(h) || released(s, step) == Some(h),
{
    let end = after_step(s, step);
    if taken(step) == Some(h) {
        if released(s, step) != Some(h) {
            assert(end.entries.contains_key(subject(step)) && end.entries[subject(step)].handle == h);
        }
    } else {
        let id = choose|id: Seq<char>| s.entries.contains_key(id) && #[trigger] s.entries[id].handle == h;
        if id != subject(step) {
            lemma_step_is_local(s, step, id);
            assert(end.entries.contains_key(id) && end.entries[id].handle == h);
        } else if released(s, step) != Some(h) {
            assert(end.entries.contains_key(id) && end.entries[id].handle == h);
        }
    }
}

/// No entry keeps a cancelled subscription: a handle that an entry held and
/// that the tracker gave back for cancelling is not the handle of the
/// identity's entry afterwards.
pub proof fn lemma_released_is_detached(s: TrackerView, step: Step)
    requires
        released(s, step).is_some(),
        taken(step) != released(s, step),
    ensures
        handle_at(after_step(s, step).entries, subject(step)) != released(s, step),
{
}

/// Forgetting a player twice is the same as forgetting it once, and the
/// second time nothing is left to cancel.
pub proof fn lemma_forget_is_idempotent(s: TrackerView, name: Seq<char>)
    ensures
        ({
            let once = after_owner_change(s, name, Ownership::Unowned);
            &&& after_owner_change(once, name, Ownership::Unowned) == once
            &&& owner_action(once, name, Ownership::Unowned).cancel_of().is_none()
        }),
{
    let once = after_owner_change(s, name, Ownership::Unowned);
    if is_player_name(name) {
        assert(once.entries.remove(name) =~= once.entries);
        assert(once.pending.remove(name) =~= once.pending);
    }
}

/// The end of a subscription is taken in once: when it is reported again
/// nothing changes and nothing is given back.
pub proof fn lemma_end_is_idempotent(s: TrackerView, id: Seq<char>, handle: u64)
    ensures
        after_end(after_end(s, id, handle), id, handle) == after_end(s, id, handle),
        released(after_end(s, id, handle), Step::Ended { id, handle }).is_none(),
{
}

/// Whether no identity has an entry while its fetch is under way.
pub open spec fn waits_without_entry(s: TrackerView) -> bool {
    forall|id: Seq<char>| s.pending.contains(id) ==> !#[trigger] s.entries.contains_key(id)
}

/// An identity never has an entry while its fetch is under way: this holds
/// of a tracker that knows no player, and every step keeps it. So the entry
/// that a finished fetch makes replaces none, and no subscription is
/// attached to a name whose fetch has not come back.
pub proof fn lemma_waiting_has_no_entry(s: TrackerView, step: Step)
    requires
        waits_without_entry(s),
    ensures
        waits_without_entry(nothing_known()),
        waits_without_entry(after_step(s, step)),
        match step {
            Step::Fetched { id, fetched: Some((bag, _)), .. } => s.pending.contains(id) && snapshot_of(bag).is_ok()
                ==> released(s, step).is_none(),
            _ => true,
        },
{
    let end = after_step(s, step);
    assert forall|id: Seq<char>| end.pending.contains(id) implies !#[trigger] end.entries.contains_key(id) by {
        if id != subject(step) {
            lemma_step_is_local(s, step, id);
            assert(s.pending.contains(id));
            assert(!s.entries.contains_key(id));
        } else {
            assert(s.pending.contains(id) ==> !s.entries.contains_key(id));
        }
    }
}

} // verus!
