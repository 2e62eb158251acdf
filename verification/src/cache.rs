//! The cache layer: classification of raw store replies into the fail-open
//! lookup outcomes, and an in-process reference store with the exact
//! get/set-with-expiry/delete/exists semantics the backend expects of its
//! external key-value store.
//!
//! The reference store gives the cache-aside flow something to be proved and
//! exercised against: entries are written with an absolute expiry and a
//! lookup returns a value exactly when its entry is still fresh, with the
//! last write to a key winning.

use vstd::prelude::*;
use vstd::string::*;

verus! {

/// What a cache read yields once failures are absorbed: a fresh value, a
/// plain miss, or an unreachable/corrupt store. The last is treated by every
/// caller exactly like a miss (fail open); it never surfaces as an error.
#[derive(Debug, Clone, PartialEq, Eq)]
pub enum CacheLookup {
    Hit(String),
    Miss,
    Unavailable,
}

/// Absorb a raw store reply: a present value is a hit, an absent key is a
/// miss, and any store or decoding failure is `Unavailable` — never an error.
pub fn classify_lookup(raw: Result<Option<String>, String>) -> (r: CacheLookup)
    ensures
        raw matches Ok(Some(v)) ==> (r matches CacheLookup::Hit(h) && h@ == v@),
        raw matches Ok(o) ==> o is None ==> r == CacheLookup::Miss,
        raw is Err ==> r == CacheLookup::Unavailable,
{
    match raw {
        Ok(Some(v)) => CacheLookup::Hit(v),
        Ok(None) => CacheLookup::Miss,
        Err(_) => CacheLookup::Unavailable,
    }
}

/// One stored entry: a key, its serialized payload, and the absolute time at
/// which the entry stops being served.
#[derive(Debug, Clone, PartialEq, Eq)]
pub struct StoredEntry {
    pub key: String,
    pub value: String,
    pub expires_at: u64,
}

/// The value and expiry a key resolves to in a sequence of writes: the last
/// entry for the key wins, as single-key sets in the external store do.
pub open spec fn seq_lookup(s: Seq<StoredEntry>, k: Seq<char>) -> Option<(Seq<char>, u64)>
    decreases s.len(),
{
    if s.len() == 0 {
        None
    } else if s.last().key@ == k {
        Some((s.last().value@, s.last().expires_at))
    } else {
        seq_lookup(s.drop_last(), k)
    }
}

/// When no entry at or after position `i` is keyed by `k`, the lookup is
/// decided by the first `i` entries alone.
proof fn lemma_lookup_take(s: Seq<StoredEntry>, k: Seq<char>, i: int)
    requires
        0 <= i <= s.len(),
        forall|j: int| i <= j < s.len() ==> s[j].key@ != k,
    ensures
        seq_lookup(s, k) == seq_lookup(s.take(i), k),
    decreases s.len() - i,
{
    if i < s.len() {
        assert(s.drop_last() == s.take(s.len() - 1));
        lemma_lookup_take(s.take(s.len() - 1), k, i);
        assert(s.take(s.len() - 1).take(i) == s.take(i));
    } else {
        assert(s.take(i) == s);
    }
}

/// An in-process store with the external store's single-key semantics:
/// get, set with a time-to-live, delete, exists.
#[derive(Debug, Clone, PartialEq, Eq)]
pub struct MemoryStore {
    entries: Vec<StoredEntry>,
}

impl MemoryStore {
    /// The write history the store holds.
    pub closed spec fn log(&self) -> Seq<StoredEntry> {
        self.entries@
    }

    /// What `key` currently resolves to: the payload and expiry of its last
    /// write, if any.
    pub open spec fn resolves(&self, key: Seq<char>) -> Option<(Seq<char>, u64)> {
        seq_lookup(self.log(), key)
    }

    /// Whether `key` holds a value that is still fresh at time `now`: the
    /// entry stops being served once its expiry time is reached.
    pub open spec fn fresh_at(&self, key: Seq<char>, now: u64) -> bool {
        match self.resolves(key) {
            Some(p) => now < p.1,
            None => false,
        }
    }

    /// The fresh value under `key` at time `now`, if any.
    pub open spec fn value_at(&self, key: Seq<char>, now: u64) -> Option<Seq<char>> {
        match self.resolves(key) {
            Some(p) => if now < p.1 {
                Some(p.0)
            } else {
                None
            },
            None => None,
        }
    }

    pub fn new() -> (r: MemoryStore)
        ensures
            r.log() == Seq::<StoredEntry>::empty(),
            forall|k: Seq<char>| r.resolves(k) is None,
    {
        MemoryStore { entries: Vec::new() }
    }

    /// Read `key` at time `now`: the stored payload exactly when the entry is
    /// still fresh; an expired or absent entry is a miss.
    pub fn get(&self, key: &str, now: u64) -> (r: Option<String>)
        ensures
            r matches Some(v) ==> self.value_at(key@, now) == Some(v@),
            r is None ==> self.value_at(key@, now) is None,
    {
        let wanted = String::from_str(key);
        let n = self.entries.len();
        let mut i: usize = n;
        while i > 0
            invariant
                0 <= i <= n == self.log().len(),
                wanted@ == key@,
                forall|j: int| i <= j < n ==> self.log()[j].key@ != key@,
            decreases i,
        {
            i = i - 1;
            if self.entries[i].key == wanted {
                proof {
                    lemma_lookup_take(self.log(), key@, i + 1);
                    assert(self.log().take(i + 1).last() == self.log()[i as int]);
                    assert(self.log().take(i + 1).drop_last() == self.log().take(i as int));
                }
                if now < self.entries[i].expires_at {
                    return Some(self.entries[i].value.clone());
                } else {
                    return None;
                }
            }
        }
        proof {
            lemma_lookup_take(self.log(), key@, 0);
            assert(self.log().take(0) == Seq::<StoredEntry>::empty());
        }
        None
    }

    /// Write `value` under `key` with a time-to-live of `ttl` seconds from
    /// `now`. The write is all-or-nothing and wins over earlier writes to the
    /// same key; every other key is untouched.
    pub fn set(&mut self, key: &str, value: &str, ttl: u64, now: u64)
        requires
            now + ttl <= u64::MAX,
        ensures
            final(self).resolves(key@) matches Some(p) && p.0 == value@ && p.1 == now + ttl,
            forall|k: Seq<char>| k != key@ ==> final(self).resolves(k) == old(self).resolves(k),
    {
        let entry = StoredEntry {
            key: String::from_str(key),
            value: String::from_str(value),
            expires_at: now + ttl,
        };
        self.entries.push(entry);
        proof {
            assert(self.log().drop_last() == old(self).log());
        }
    }

    /// Remove `key`, leaving every other key as it was. Done by writing an
    /// entry that is already expired at any time, so the write history keeps
    /// its last-write-wins shape.
    pub fn delete(&mut self, key: &str)
        ensures
            forall|now: u64| final(self).value_at(key@, now) is None,
            forall|k: Seq<char>| k != key@ ==> final(self).resolves(k) == old(self).resolves(k),
    {
        let entry = StoredEntry {
            key: String::from_str(key),
            value: String::new(),
            expires_at: 0,
        };
        self.entries.push(entry);
        proof {
            assert(self.log().drop_last() == old(self).log());
        }
    }

    /// Whether `key` holds a fresh value at time `now`.
    pub fn key_exists(&self, key: &str, now: u64) -> (r: bool)
        ensures
            r == self.fresh_at(key@, now),
    {
        let got = self.get(key, now);
        proof {
            if self.fresh_at(key@, now) {
                assert(self.value_at(key@, now) is Some);
            }
        }
        match got {
            Some(_) => true,
            None => false,
        }
    }
}

} // verus!
