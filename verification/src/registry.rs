//! The registry of channel subscriptions: at most one entry per channel.

use vstd::prelude::*;
use dashmap::DashMap;

verus! {

/// `dashmap::DashMap`, the concurrent hash map, taken as an opaque value.
#[verifier::external_type_specification]
#[verifier::external_body]
#[verifier::reject_recursive_types(K)]
#[verifier::reject_recursive_types(V)]
#[verifier::reject_recursive_types(S)]
pub struct ExDashMap<K, V, S>(DashMap<K, V, S>);

/// What a concurrent map from channel name to liveness flag holds: each key
/// by its characters, with the flag stored under it.
pub uninterp spec fn map_entries(map: DashMap<String, bool>) -> Map<Seq<char>, bool>;

/// The registry contents without any entry.
pub open spec fn no_subscriptions() -> Map<Seq<char>, bool> {
    Map::empty()
}

/// `DashMap::new`: the map it returns holds nothing.
#[verifier::external_body]
fn map_new() -> (fresh: DashMap<String, bool>)
    ensures
        map_entries(fresh) == no_subscriptions(),
{
    DashMap::new()
}

/// `DashMap::get`, copying the flag out of the guard: the flag stored under
/// `key`, or `None` where the map has no such key.
#[verifier::external_body]
fn map_get(map: &DashMap<String, bool>, key: &str) -> (found: Option<bool>)
    ensures
        found == (if map_entries(*map).contains_key(key@) {
            Some(map_entries(*map)[key@])
        } else {
            None
        }),
{
    map.get(key).map(|entry| *entry.value())
}

/// `DashMap::insert`: afterwards `key` maps to `value` and every other key is
/// as before; the result is the flag that `key` had, if it had one.
#[verifier::external_body]
fn map_insert(map: &mut DashMap<String, bool>, key: String, value: bool) -> (previous: Option<bool>)
    ensures
        map_entries(*final(map)) == map_entries(*old(map)).insert(key@, value),
        previous == (if map_entries(*old(map)).contains_key(key@) {
            Some(map_entries(*old(map))[key@])
        } else {
            None
        }),
{
    map.insert(key, value)
}

/// `DashMap::remove`, keeping the flag of the removed pair: afterwards `key`
/// is absent and every other key is as before; the result is the flag that
/// `key` had, if it had one.
#[verifier::external_body]
fn map_remove(map: &mut DashMap<String, bool>, key: &str) -> (removed: Option<bool>)
    ensures
        map_entries(*final(map)) == map_entries(*old(map)).remove(key@),
        removed == (if map_entries(*old(map)).contains_key(key@) {
            Some(map_entries(*old(map))[key@])
        } else {
            None
        }),
{
    map.remove(key).map(|pair| pair.1)
}

/// Whether `channel` has an entry in `subscriptions`, live or still opening.
pub open spec fn is_reserved(subscriptions: Map<Seq<char>, bool>, channel: Seq<char>) -> bool {
    subscriptions.contains_key(channel)
}

/// Whether `channel` has a live subscription in `subscriptions`.
pub open spec fn is_live(subscriptions: Map<Seq<char>, bool>, channel: Seq<char>) -> bool {
    subscriptions.contains_key(channel) && subscriptions[channel]
}

/// Whether `channel` has an entry in `subscriptions` that is still opening.
pub open spec fn is_opening(subscriptions: Map<Seq<char>, bool>, channel: Seq<char>) -> bool {
    subscriptions.contains_key(channel) && !subscriptions[channel]
}

/// The subscriptions of one process, keyed by channel name. An entry is
/// either opening (reserved while its feed is being set up) or live. The
/// view maps each channel that has an entry to whether it is live.
pub struct SubscriptionRegistry {
    entries: DashMap<String, bool>,
}

impl View for SubscriptionRegistry {
    type V = Map<Seq<char>, bool>;

    closed spec fn view(&self) -> Map<Seq<char>, bool> {
        map_entries(self.entries)
    }
}

impl SubscriptionRegistry {
    /// A registry without entries.
    pub fn new() -> (registry: Self)
        ensures
            registry@ == no_subscriptions(),
    {
        SubscriptionRegistry { entries: map_new() }
    }

    /// Whether `channel` has an entry, live or opening.
    pub fn is_reserved(&self, channel: &str) -> (reserved: bool)
        ensures
            reserved == is_reserved(self@, channel@),
    {
        map_get(&self.entries, channel).is_some()
    }

    /// Whether `channel` has a live subscription.
    pub fn is_live(&self, channel: &str) -> (live: bool)
        ensures
            live == is_live(self@, channel@),
    {
        match map_get(&self.entries, channel) {
            Some(live) => live,
            None => false,
        }
    }

    /// Test-and-set: where `channel` has no entry, reserves one in the
    /// opening phase and returns `true`; where it has one, changes nothing
    /// and returns `false`.
    pub fn reserve(&mut self, channel: &str) -> (reserved: bool)
        ensures
            reserved == !is_reserved(old(self)@, channel@),
            reserved ==> final(self)@ == old(self)@.insert(channel@, false),
            !reserved ==> final(self)@ == old(self)@,
    {
        if map_get(&self.entries, channel).is_some() {
            false
        } else {
            map_insert(&mut self.entries, channel.to_owned(), false);
            true
        }
    }

    /// Turns the opening entry of `channel` live and returns `true`; where
    /// `channel` has no opening entry, changes nothing and returns `false`.
    pub fn activate(&mut self, channel: &str) -> (activated: bool)
        ensures
            activated == is_opening(old(self)@, channel@),
            activated ==> final(self)@ == old(self)@.insert(channel@, true),
            !activated ==> final(self)@ == old(self)@,
    {
        match map_get(&self.entries, channel) {
            Some(false) => {
                map_insert(&mut self.entries, channel.to_owned(), true);
                true
            },
            _ => false,
        }
    }

    /// Withdraws the opening entry of `channel` and returns `true`; where
    /// `channel` has no opening entry, changes nothing and returns `false`.
    pub fn withdraw(&mut self, channel: &str) -> (withdrawn: bool)
        ensures
            withdrawn == is_opening(old(self)@, channel@),
            withdrawn ==> final(self)@ == old(self)@.remove(channel@),
            !withdrawn ==> final(self)@ == old(self)@,
    {
        match map_get(&self.entries, channel) {
            Some(false) => {
                map_remove(&mut self.entries, channel);
                true
            },
            _ => false,
        }
    }

    /// Removes the live entry of `channel` and returns `true`; where
    /// `channel` has no live entry, changes nothing and returns `false`.
    pub fn remove(&mut self, channel: &str) -> (removed: bool)
        ensures
            removed == is_live(old(self)@, channel@),
            removed ==> final(self)@ == old(self)@.remove(channel@),
            !removed ==> final(self)@ == old(self)@,
    {
        match map_get(&self.entries, channel) {
            Some(true) => {
                map_remove(&mut self.entries, channel);
                true
            },
            _ => false,
        }
    }
}

} // verus!
