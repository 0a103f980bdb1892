//! Memoized lookups of classes and methods on the host.
//!
//! A handle is the position of its key in the cache. The host keeps what it
//! resolved under that position, so a key that is found again costs nothing.

use vstd::prelude::*;

verus! {

/// Keys in the order in which they were first asked for. The leading ones are
/// settled: the host has confirmed their lookup. The others were handed out in
/// a delivery whose outcome is not known yet.
#[derive(Debug)]
pub struct HandleCache {
    keys: Vec<String>,
    settled: usize,
}

/// What one lookup in the cache gives.
#[derive(Debug, PartialEq, Eq, Structural, Clone, Copy)]
pub struct Resolution {
    /// The handle of the key.
    pub slot: usize,
    /// Whether the host has to look the key up: the cache did not hold it.
    pub fresh: bool,
}

/// No key occurs twice.
pub open spec fn distinct(keys: Seq<Seq<char>>) -> bool {
    forall|i: int, j: int| 0 <= i < j < keys.len() ==> keys[i] != keys[j]
}

/// The keys after `key` was resolved against `keys`.
pub open spec fn keys_after(keys: Seq<Seq<char>>, key: Seq<char>) -> Seq<Seq<char>> {
    if keys.contains(key) {
        keys
    } else {
        keys.push(key)
    }
}

/// The handle that resolving `key` against `keys` gives.
pub open spec fn slot_after(keys: Seq<Seq<char>>, key: Seq<char>) -> int {
    if keys.contains(key) {
        keys.index_of(key)
    } else {
        keys.len() as int
    }
}

/// The number of keys that stay when the host confirms `confirmed` of the
/// lookups that were still open.
pub open spec fn kept(len: nat, settled: nat, confirmed: nat) -> nat {
    if settled + confirmed >= len {
        len
    } else {
        settled + confirmed
    }
}

impl HandleCache {
    /// The keys held, in the order of their handles.
    pub closed spec fn keys(&self) -> Seq<Seq<char>> {
        self.keys@.map_values(|k: String| k@)
    }

    /// How many of the leading keys the host has confirmed.
    pub closed spec fn settled(&self) -> nat {
        self.settled as nat
    }

    /// No key is held twice, and only keys that are held are settled.
    pub open spec fn wf(&self) -> bool {
        &&& distinct(self.keys())
        &&& self.settled() <= self.keys().len()
    }

    /// Whether `key` has a handle.
    pub open spec fn contains(&self, key: Seq<char>) -> bool {
        self.keys().contains(key)
    }

    /// An empty cache.
    pub fn new() -> (cache: HandleCache)
        ensures
            cache.wf(),
            cache.keys() == Seq::<Seq<char>>::empty(),
            cache.settled() == 0,
    {
        let cache = HandleCache { keys: Vec::new(), settled: 0 };
        assert(cache.keys() =~= Seq::<Seq<char>>::empty());
        cache
    }

    /// The number of keys held.
    pub fn len(&self) -> (n: usize)
        ensures
            n == self.keys().len(),
    {
        self.keys.len()
    }

    /// The number of leading keys that the host has confirmed.
    pub fn settled_len(&self) -> (n: usize)
        ensures
            n == self.settled(),
    {
        self.settled
    }

    /// The key that has the handle `slot`.
    pub fn key_at(&self, slot: usize) -> (key: &String)
        requires
            slot < self.keys().len(),
        ensures
            key@ == self.keys()[slot as int],
    {
        &self.keys[slot]
    }

    /// The handle of `key`, if the cache holds it.
    pub fn find(&self, key: &str) -> (r: Option<usize>)
        ensures
            self.contains(key@) ==> r is Some && r->0 < self.keys().len() && self.keys()[r->0 as int]
                == key@,
            !self.contains(key@) ==> r is None,
            distinct(self.keys()) && self.contains(key@) ==> r == Some(
                self.keys().index_of(key@) as usize,
            ),
    {
        let wanted = key.to_owned();
        let mut i: usize = 0;
        while i < self.keys.len()
            invariant
                0 <= i <= self.keys.len(),
                wanted@ == key@,
                forall|j: int| 0 <= j < i ==> self.keys()[j] != key@,
            decreases self.keys.len() - i,
        {
            if self.keys[i] == wanted {
                assert(self.keys()[i as int] == key@);
                proof {
                    if distinct(self.keys()) {
                        let k = self.keys().index_of(key@);
                        assert(0 <= k < self.keys().len() && self.keys()[k] == key@);
                    }
                }
                return Some(i);
            }
            assert(self.keys()[i as int] != key@);
            i += 1;
        }
        None
    }

    /// Resolves `key`: a key that is held keeps its handle and asks nothing of
    /// the host, a new key gets the next handle and one lookup.
    pub fn resolve(&mut self, key: &str) -> (r: Resolution)
        requires
            old(self).wf(),
        ensures
            final(self).wf(),
            final(self).settled() == old(self).settled(),
            final(self).keys() == keys_after(old(self).keys(), key@),
            r.slot == slot_after(old(self).keys(), key@),
            r.fresh == !old(self).contains(key@),
            r.slot < final(self).keys().len(),
            final(self).keys()[r.slot as int] == key@,
    {
        match self.find(key) {
            Some(slot) => Resolution { slot, fresh: false },
            None => {
                let slot = self.keys.len();
                self.keys.push(key.to_owned());
                assert(self.keys() =~= old(self).keys().push(key@));
                Resolution { slot, fresh: true }
            },
        }
    }

    /// Takes in what the host reports of a delivery: the first `confirmed` of
    /// the lookups that were open succeeded, the others did not happen or
    /// failed. What succeeded is settled, the rest is forgotten.
    pub fn settle(&mut self, confirmed: usize)
        requires
            old(self).wf(),
        ensures
            final(self).wf(),
            final(self).keys() == old(self).keys().take(
                kept(old(self).keys().len(), old(self).settled(), confirmed as nat) as int,
            ),
            final(self).settled() == final(self).keys().len(),
    {
        let open: usize = self.keys.len() - self.settled;
        let keep: usize = if confirmed >= open {
            self.keys.len()
        } else {
            self.settled + confirmed
        };
        self.keys.truncate(keep);
        self.settled = keep;
        assert(self.keys() =~= old(self).keys().take(keep as int));
    }

    /// Forgets every key whose lookup the host has not confirmed.
    pub fn discard_unsettled(&mut self)
        requires
            old(self).wf(),
        ensures
            final(self).wf(),
            final(self).keys() == old(self).keys().take(old(self).settled() as int),
            final(self).settled() == old(self).settled(),
    {
        self.keys.truncate(self.settled);
        assert(self.keys() =~= old(self).keys().take(old(self).settled() as int));
    }
}

/// Resolving is idempotent: a second lookup of the same key against the cache
/// that the first one left gives the same handle, leaves the cache as it is
/// and asks nothing of the host.
pub proof fn lemma_resolve_idempotent(keys: Seq<Seq<char>>, key: Seq<char>)
    requires
        distinct(keys),
    ensures
        keys_after(keys, key).contains(key),
        keys_after(keys_after(keys, key), key) == keys_after(keys, key),
        slot_after(keys_after(keys, key), key) == slot_after(keys, key),
        distinct(keys_after(keys, key)),
{
    let after = keys_after(keys, key);
    if keys.contains(key) {
    } else {
        assert(after[keys.len() as int] == key);
        assert forall|i: int, j: int| 0 <= i < j < after.len() implies after[i] != after[j] by {
            if j == keys.len() {
                assert(keys[i] == after[i]);
            }
        }
        let k = after.index_of(key);
        assert(0 <= k < after.len() && after[k] == key);
        if k < keys.len() {
            assert(keys[k] == key);
        }
    }
}

/// A key that the cache holds keeps its handle when other keys are resolved:
/// the cache only grows at its end.
pub proof fn lemma_resolve_keeps_handles(keys: Seq<Seq<char>>, key: Seq<char>, other: Seq<char>)
    requires
        distinct(keys),
        keys.contains(other),
    ensures
        keys_after(keys, key).contains(other),
        slot_after(keys_after(keys, key), other) == slot_after(keys, other),
{
    let after = keys_after(keys, key);
    lemma_resolve_idempotent(keys, key);
    let k = keys.index_of(other);
    assert(0 <= k < keys.len() && keys[k] == other);
    assert(after[k] == other);
    let a = after.index_of(other);
    assert(0 <= a < after.len() && after[a] == other);
    if a != k {
        if a < k {
            assert(after[a] != after[k]);
        } else {
            assert(after[k] != after[a]);
        }
    }
}

} // verus!
