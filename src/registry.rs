use vstd::prelude::*;
use dashmap::DashSet;
use crate::concurrent::{key_set, key_set_contains, key_set_insert, key_set_new, key_set_remove};

verus! {

/// The registry after an attempt to begin `k`, and whether it began.
pub open spec fn begin_spec(s: Set<Seq<char>>, k: Seq<char>) -> (Set<Seq<char>>, bool) {
    if s.contains(k) { (s, false) } else { (s.insert(k), true) }
}

/// The registry after `k` ends.
pub open spec fn end_spec(s: Set<Seq<char>>, k: Seq<char>) -> Set<Seq<char>> {
    s.remove(k)
}

/// Auctions with a fill run in flight, by key; at most one entry per key.
pub struct AuctionRegistry {
    keys: DashSet<String>,
}

impl View for AuctionRegistry {
    type V = Set<Seq<char>>;

    closed spec fn view(&self) -> Set<Seq<char>> {
        key_set(self.keys)
    }
}

impl AuctionRegistry {
    pub fn new() -> (r: Self)
        ensures
            r@ == Set::<Seq<char>>::empty(),
    {
        AuctionRegistry { keys: key_set_new() }
    }

    /// Enters `key` unless it is in flight already; true where it was entered.
    pub fn try_begin(&mut self, key: String) -> (r: bool)
        ensures
            (final(self)@, r) == begin_spec(old(self)@, key@),
    {
        let ghost k = key@;
        let r = key_set_insert(&mut self.keys, key);
        proof {
            if !r {
                assert(old(self)@.insert(k) =~= old(self)@);
            }
        }
        r
    }

    /// Removes `key`; nothing happens where it is absent.
    pub fn end(&mut self, key: &str)
        ensures
            final(self)@ == end_spec(old(self)@, key@),
    {
        key_set_remove(&mut self.keys, key)
    }

    pub fn contains(&self, key: &str) -> (r: bool)
        ensures
            r == self@.contains(key@),
    {
        key_set_contains(&self.keys, key)
    }
}

/// How many of the attempts to begin the keys `ks`, made in order from registry `s`,
/// succeed for key `k`.
pub open spec fn grants(s: Set<Seq<char>>, ks: Seq<Seq<char>>, k: Seq<char>) -> nat
    decreases ks.len(),
{
    if ks.len() == 0 {
        0
    } else {
        let (s1, b) = begin_spec(s, ks[0]);
        (if b && ks[0] == k { 1nat } else { 0nat }) + grants(s1, ks.drop_first(), k)
    }
}

/// However many attempts to begin arrive, with duplicates and other keys mixed in, while
/// no run ends, at most one of them succeeds for any key, and none for a key already in
/// flight.
pub proof fn lemma_at_most_one_in_flight(s: Set<Seq<char>>, ks: Seq<Seq<char>>, k: Seq<char>)
    ensures
        grants(s, ks, k) <= 1,
        s.contains(k) ==> grants(s, ks, k) == 0,
    decreases ks.len(),
{
    if ks.len() > 0 {
        let (s1, b) = begin_spec(s, ks[0]);
        lemma_at_most_one_in_flight(s1, ks.drop_first(), k);
        if ks[0] == k {
            assert(s1.contains(k));
        } else {
            assert(s1.contains(k) == s.contains(k));
        }
    }
}

/// Once a run for `k` ends, `k` is free: a later observation of the auction begins a
/// new run.
pub proof fn lemma_end_releases(s: Set<Seq<char>>, k: Seq<char>)
    ensures
        !end_spec(s, k).contains(k),
        begin_spec(end_spec(s, k), k).1,
        begin_spec(end_spec(s, k), k).0.contains(k),
{
}

} // verus!
