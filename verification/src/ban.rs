//! The shared ban list: a map from peer address to expiry instant.
//!
//! Instants are plain unsigned ticks (the I/O layer converts its clock,
//! milliseconds here); addresses are the integers described in `error`.
//! Entries are never removed: a lookup simply compares the stored expiry
//! against the current time, so an address with a future expiry is banned
//! no matter what was inserted before it.

use dashmap::DashMap;
use std::collections::hash_map::RandomState;
use vstd::prelude::*;

verus! {

#[verifier::external_type_specification]
#[verifier::external_body]
#[verifier::reject_recursive_types(K)]
#[verifier::reject_recursive_types(V)]
#[verifier::reject_recursive_types(S)]
pub struct ExDashMap<K, V, S>(DashMap<K, V, S>);

/// What the ban map holds: every recorded address and its expiry instant.
pub uninterp spec fn ban_map_of(m: DashMap<u128, u64, RandomState>) -> Map<u128, u64>;

/// A ban map with nothing in it.
pub open spec fn no_bans() -> Map<u128, u64> {
    Map::empty()
}

/// Relies on `dashmap::DashMap::new`: the new map is empty.
#[verifier::external_body]
fn dashmap_new() -> (m: DashMap<u128, u64, RandomState>)
    ensures
        ban_map_of(m) == no_bans(),
{
    DashMap::new()
}

/// Relies on `dashmap::DashMap::insert`: afterwards the key maps to the
/// value; no other entry moves.
#[verifier::external_body]
fn dashmap_insert(m: &mut DashMap<u128, u64, RandomState>, key: u128, value: u64)
    ensures
        ban_map_of(*final(m)) == ban_map_of(*old(m)).insert(key, value),
{
    m.insert(key, value);
}

/// Relies on `dashmap::DashMap::get`: returns the value the key maps to,
/// or nothing when the key is absent.
#[verifier::external_body]
fn dashmap_get(m: &DashMap<u128, u64, RandomState>, key: u128) -> (r: Option<u64>)
    ensures
        match r {
            Some(v) => ban_map_of(*m).dom().contains(key) && ban_map_of(*m)[key] == v,
            None => !ban_map_of(*m).dom().contains(key),
        },
{
    match m.get(&key) {
        Some(v) => Some(*v),
        None => None,
    }
}

/// An address is banned at `now` when the map holds it with an expiry
/// still in the future.
pub open spec fn banned_at(m: Map<u128, u64>, ip: u128, now: u64) -> bool {
    m.dom().contains(ip) && m[ip] > now
}

/// The ban list itself. One instance is shared by all workers of a
/// process; the I/O layer supplies whatever locking that sharing needs.
pub struct BanList {
    map: DashMap<u128, u64, RandomState>,
}

impl View for BanList {
    type V = Map<u128, u64>;

    closed spec fn view(&self) -> Map<u128, u64> {
        ban_map_of(self.map)
    }
}

impl BanList {
    /// An empty ban list.
    pub fn new() -> (b: BanList)
        ensures
            b@ == no_bans(),
    {
        BanList { map: dashmap_new() }
    }

    /// Records that `ip` is banned until `expiry`, replacing any earlier
    /// entry for the same address.
    pub fn insert(&mut self, ip: u128, expiry: u64)
        ensures
            final(self)@ == old(self)@.insert(ip, expiry),
    {
        dashmap_insert(&mut self.map, ip, expiry);
    }

    /// Whether `ip` is banned at `now`: its recorded expiry, if any, lies
    /// strictly in the future.
    pub fn is_banned(&self, ip: u128, now: u64) -> (r: bool)
        ensures
            r == banned_at(self@, ip, now),
    {
        match dashmap_get(&self.map, ip) {
            Some(expiry) => expiry > now,
            None => false,
        }
    }
}

/// Ban durability: once (ip, T) is inserted, every lookup of `ip` at a
/// time before T finds it banned, and every lookup at T or later finds it
/// free — whatever the map held before.
pub proof fn lemma_ban_durability(m: Map<u128, u64>, ip: u128, expiry: u64, t: u64)
    ensures
        t < expiry ==> banned_at(m.insert(ip, expiry), ip, t),
        t >= expiry ==> !banned_at(m.insert(ip, expiry), ip, t),
{
}

} // verus!
