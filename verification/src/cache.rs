//! The artifact cache: a durable, content-addressed store of built
//! artifacts, keyed by fingerprint and shared across processes.

use vstd::prelude::*;

use crate::artifact::Artifact;

verus! {

/// One stored artifact under its fingerprint.
#[derive(Clone, Copy, PartialEq, Eq, Structural, Debug)]
pub struct CacheSlot {
    pub fingerprint: u64,
    pub artifact: Artifact,
}

/// The content-addressed artifact store. Write-once per fingerprint: a
/// stored artifact is never replaced or evicted by the engine itself; an
/// external administrative action may prune by fingerprint.
pub struct ArtifactCache {
    slots: Vec<CacheSlot>,
}

impl View for ArtifactCache {
    type V = Seq<CacheSlot>;

    closed spec fn view(&self) -> Seq<CacheSlot> {
        self.slots@
    }
}

/// The artifact stored under `fp`, if any: the first slot with that
/// fingerprint. A well-formed cache holds at most one.
pub open spec fn cache_find(s: Seq<CacheSlot>, fp: u64) -> Option<Artifact>
    decreases s.len(),
{
    if s.len() == 0 {
        None
    } else if s[0].fingerprint == fp {
        Some(s[0].artifact)
    } else {
        cache_find(s.skip(1), fp)
    }
}

/// Looking past a prefix that does not hold `fp` finds the same artifact.
proof fn lemma_cache_find_skip(s: Seq<CacheSlot>, fp: u64, i: int)
    requires
        0 <= i <= s.len(),
        forall|j: int| 0 <= j < i ==> s[j].fingerprint != fp,
    ensures
        cache_find(s, fp) == cache_find(s.skip(i), fp),
    decreases i,
{
    if i > 0 {
        assert(s.skip(1).skip(i - 1) =~= s.skip(i));
        lemma_cache_find_skip(s.skip(1), fp, i - 1);
    } else {
        assert(s.skip(0) =~= s);
    }
}

/// Appending a slot under a fingerprint the cache does not hold leaves
/// every other fingerprint's answer unchanged and makes the new artifact
/// the answer for its own.
pub proof fn lemma_cache_find_push(s: Seq<CacheSlot>, slot: CacheSlot, fp: u64)
    ensures
        fp == slot.fingerprint && cache_find(s, fp) is None ==> cache_find(s.push(slot), fp)
            == Some(slot.artifact),
        fp != slot.fingerprint ==> cache_find(s.push(slot), fp) == cache_find(s, fp),
    decreases s.len(),
{
    let p = s.push(slot);
    if s.len() == 0 {
        assert(p[0] == slot);
        assert(p.skip(1) =~= Seq::<CacheSlot>::empty());
        assert(cache_find(p, fp) == if slot.fingerprint == fp {
            Some(slot.artifact)
        } else {
            cache_find(p.skip(1), fp)
        });
    } else {
        assert(p[0] == s[0]);
        assert(p.skip(1) =~= s.skip(1).push(slot));
        lemma_cache_find_push(s.skip(1), slot, fp);
        assert(cache_find(p, fp) == if s[0].fingerprint == fp {
            Some(s[0].artifact)
        } else {
            cache_find(p.skip(1), fp)
        });
    }
}

impl ArtifactCache {
    /// An empty store.
    pub fn new() -> (r: ArtifactCache)
        ensures
            r@ == Seq::<CacheSlot>::empty(),
    {
        ArtifactCache { slots: Vec::new() }
    }

    /// The stored artifact for `fp`, or nothing on a cache miss. Never
    /// builds; never mutates the store.
    pub fn lookup(&self, fp: u64) -> (r: Option<Artifact>)
        ensures
            r == cache_find(self@, fp),
    {
        let mut i: usize = 0;
        while i < self.slots.len()
            invariant
                i <= self.slots@.len(),
                forall|j: int| 0 <= j < i ==> self.slots@[j].fingerprint != fp,
            decreases self.slots@.len() - i,
        {
            if self.slots[i].fingerprint == fp {
                proof {
                    lemma_cache_find_skip(self.slots@, fp, i as int);
                }
                return Some(self.slots[i].artifact);
            }
            i = i + 1;
        }
        proof {
            lemma_cache_find_skip(self.slots@, fp, i as int);
        }
        None
    }

    /// Stores an artifact under its fingerprint, first completed writer
    /// wins: if the fingerprint is already present, the store is unchanged
    /// and the artifact already stored is returned for the caller to reuse;
    /// otherwise the offered artifact is published and returned. Either way
    /// the returned artifact is from then on the one `lookup` answers with.
    pub fn store(&mut self, fp: u64, artifact: Artifact) -> (r: Artifact)
        ensures
            match cache_find(old(self)@, fp) {
                Some(existing) => r == existing && final(self)@ == old(self)@,
                None => r == artifact && final(self)@ == old(self)@.push(
                    CacheSlot { fingerprint: fp, artifact },
                ),
            },
            cache_find(final(self)@, fp) == Some(r),
    {
        let prior = self.lookup(fp);
        match prior {
            Some(existing) => existing,
            None => {
                let slot = CacheSlot { fingerprint: fp, artifact };
                self.slots.push(slot);
                proof {
                    lemma_cache_find_push(old(self)@, slot, fp);
                }
                artifact
            },
        }
    }
}

} // verus!
