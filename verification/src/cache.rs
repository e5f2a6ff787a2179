//! The framebuffer cache: one render-target object per output-target
//! identity.
//!
//! The cache amortizes framebuffer creation across repeated draws to the
//! same output target, and supports the explicit invalidation the host owes
//! the comparator before it destroys an output target. The cache itself
//! never creates or destroys a GPU object: it bookkeeps handles the host
//! supplies, and returns the handles whose objects the host must release.

use vstd::prelude::*;

verus! {

/// Entry lists with pairwise distinct keys.
pub open spec fn keys_distinct(s: Seq<(u64, u64)>) -> bool {
    forall|i: int, j: int| 0 <= i < j < s.len() ==> s[i].0 != s[j].0
}

/// Some entry carries the key `k`.
pub open spec fn has_key(s: Seq<(u64, u64)>, k: u64) -> bool {
    exists|i: int| 0 <= i < s.len() && (#[trigger] s[i]).0 == k
}

/// The key-to-handle map an entry list denotes.
pub open spec fn entries_map(s: Seq<(u64, u64)>) -> Map<u64, u64>
    decreases s.len(),
{
    if s.len() == 0 {
        Map::empty()
    } else {
        entries_map(s.drop_last()).insert(s.last().0, s.last().1)
    }
}

proof fn lemma_map_contains(s: Seq<(u64, u64)>, k: u64)
    ensures
        entries_map(s).contains_key(k) <==> has_key(s, k),
        entries_map(s).dom().finite(),
    decreases s.len(),
{
    if s.len() == 0 {
    } else {
        let s0 = s.drop_last();
        lemma_map_contains(s0, k);
        if has_key(s0, k) {
            let i = choose|i: int| 0 <= i < s0.len() && (#[trigger] s0[i]).0 == k;
            assert(s[i].0 == k);
        }
        if has_key(s, k) && k != s.last().0 {
            let i = choose|i: int| 0 <= i < s.len() && (#[trigger] s[i]).0 == k;
            assert(i < s0.len() && s0[i].0 == k);
        }
    }
}

proof fn lemma_map_len(s: Seq<(u64, u64)>)
    requires
        keys_distinct(s),
    ensures
        entries_map(s).dom().finite(),
        entries_map(s).dom().len() == s.len(),
    decreases s.len(),
{
    if s.len() == 0 {
    } else {
        let s0 = s.drop_last();
        assert(keys_distinct(s0));
        lemma_map_len(s0);
        lemma_map_contains(s0, s.last().0);
        assert(!has_key(s0, s.last().0)) by {
            if has_key(s0, s.last().0) {
                let i = choose|i: int| 0 <= i < s0.len() && (#[trigger] s0[i]).0 == s.last().0;
                assert(s[i].0 == s[s.len() - 1].0);
            }
        }
    }
}

proof fn lemma_map_at(s: Seq<(u64, u64)>, i: int)
    requires
        keys_distinct(s),
        0 <= i < s.len(),
    ensures
        entries_map(s).contains_key(s[i].0),
        entries_map(s)[s[i].0] == s[i].1,
    decreases s.len(),
{
    lemma_map_contains(s, s[i].0);
    if i == s.len() - 1 {
    } else {
        let s0 = s.drop_last();
        assert(keys_distinct(s0));
        lemma_map_at(s0, i);
        assert(s[i].0 != s.last().0);
    }
}

proof fn lemma_map_remove(s: Seq<(u64, u64)>, i: int)
    requires
        keys_distinct(s),
        0 <= i < s.len(),
    ensures
        keys_distinct(s.remove(i)),
        entries_map(s.remove(i)) =~= entries_map(s).remove(s[i].0),
    decreases s.len(),
{
    let k = s[i].0;
    let s0 = s.drop_last();
    assert(keys_distinct(s0));
    assert(keys_distinct(s.remove(i)));
    if i == s.len() - 1 {
        assert(s.remove(i) =~= s0);
        lemma_map_contains(s0, k);
        assert(!has_key(s0, k)) by {
            if has_key(s0, k) {
                let j = choose|j: int| 0 <= j < s0.len() && (#[trigger] s0[j]).0 == k;
                assert(s[j].0 == s[s.len() - 1].0);
            }
        }
        assert(entries_map(s0) =~= entries_map(s0).insert(s.last().0, s.last().1).remove(k));
    } else {
        lemma_map_remove(s0, i);
        assert(s.remove(i).drop_last() =~= s0.remove(i));
        assert(s.remove(i).last() == s.last());
        assert(s.remove(i).len() == s.len() - 1);
        assert(entries_map(s.remove(i)) == entries_map(s0.remove(i)).insert(
            s.last().0,
            s.last().1,
        ));
        assert(k != s.last().0);
        assert(entries_map(s0).remove(k).insert(s.last().0, s.last().1) =~= entries_map(
            s0,
        ).insert(s.last().0, s.last().1).remove(k));
    }
}

/// A cache of framebuffer handles, keyed by the identity of the output
/// target each was built for. At most one entry exists per identity; the
/// handles of the live entries, in insertion order, are what teardown must
/// release.
pub struct FramebufferCache {
    entries: Vec<(u64, u64)>,
}

impl View for FramebufferCache {
    type V = Map<u64, u64>;

    closed spec fn view(&self) -> Map<u64, u64> {
        entries_map(self.entries@)
    }
}

impl FramebufferCache {
    /// One entry per output-target identity.
    pub closed spec fn wf(&self) -> bool {
        keys_distinct(self.entries@)
    }

    /// The cached framebuffer handles, in insertion order.
    pub closed spec fn handle_seq(&self) -> Seq<u64> {
        self.entries@.map_values(|e: (u64, u64)| e.1)
    }

    /// An empty cache.
    pub fn new() -> (r: Self)
        ensures
            r.wf(),
            r@ == Map::<u64, u64>::empty(),
            r.handle_seq() == Seq::<u64>::empty(),
    {
        let r = FramebufferCache { entries: Vec::new() };
        proof {
            assert(r.handle_seq() =~= Seq::<u64>::empty());
        }
        r
    }

    /// How many output targets currently have a cached framebuffer.
    pub fn len(&self) -> (n: usize)
        requires
            self.wf(),
        ensures
            n == self@.dom().len(),
            n == self.handle_seq().len(),
    {
        proof {
            lemma_map_len(self.entries@);
        }
        self.entries.len()
    }

    /// Whether `output_target` has a cached framebuffer.
    pub fn contains(&self, output_target: u64) -> (r: bool)
        requires
            self.wf(),
        ensures
            r == self@.contains_key(output_target),
    {
        proof {
            lemma_map_contains(self.entries@, output_target);
        }
        let n = self.entries.len();
        let mut i: usize = 0;
        while i < n
            invariant
                n == self.entries@.len(),
                0 <= i <= n,
                forall|j: int| 0 <= j < i ==> (#[trigger] self.entries@[j]).0 != output_target,
            decreases n - i,
        {
            if self.entries[i].0 == output_target {
                proof {
                    assert((self.entries@[i as int]).0 == output_target);
                    assert(has_key(self.entries@, output_target));
                    lemma_map_contains(self.entries@, output_target);
                }
                return true;
            }
            i += 1;
        }
        false
    }

    /// The cached framebuffer for `output_target`, if any.
    pub fn get(&self, output_target: u64) -> (r: Option<u64>)
        requires
            self.wf(),
        ensures
            match r {
                Some(fb) => self@.contains_key(output_target) && fb == self@[output_target],
                None => !self@.contains_key(output_target),
            },
    {
        proof {
            lemma_map_contains(self.entries@, output_target);
        }
        let n = self.entries.len();
        let mut i: usize = 0;
        while i < n
            invariant
                self.wf(),
                n == self.entries@.len(),
                0 <= i <= n,
                forall|j: int| 0 <= j < i ==> (#[trigger] self.entries@[j]).0 != output_target,
            decreases n - i,
        {
            if self.entries[i].0 == output_target {
                proof {
                    lemma_map_at(self.entries@, i as int);
                }
                return Some(self.entries[i].1);
            }
            i += 1;
        }
        None
    }

    /// Returns the cached framebuffer for `output_target`, or caches and
    /// returns `fresh` when the identity has no entry yet. The second result
    /// says whether a new entry was created: exactly then the host's freshly
    /// built framebuffer was consumed, and the entry count has grown by one.
    pub fn get_or_create(&mut self, output_target: u64, fresh: u64) -> (r: (u64, bool))
        requires
            old(self).wf(),
        ensures
            final(self).wf(),
            old(self)@.contains_key(output_target) ==> {
                &&& r == (old(self)@[output_target], false)
                &&& final(self)@ == old(self)@
                &&& final(self).handle_seq() == old(self).handle_seq()
            },
            !old(self)@.contains_key(output_target) ==> {
                &&& r == (fresh, true)
                &&& final(self)@ == old(self)@.insert(output_target, fresh)
                &&& final(self).handle_seq() == old(self).handle_seq().push(fresh)
                &&& final(self)@.dom().len() == old(self)@.dom().len() + 1
            },
    {
        match self.get(output_target) {
            Some(fb) => (fb, false),
            None => {
                proof {
                    lemma_map_contains(self.entries@, output_target);
                }
                let ghost s0 = self.entries@;
                self.entries.push((output_target, fresh));
                proof {
                    assert(self.entries@.drop_last() =~= s0);
                    assert(keys_distinct(self.entries@)) by {
                        if !keys_distinct(self.entries@) {
                            let (i, j) = choose|i: int, j: int|
                                0 <= i < j < self.entries@.len() && (#[trigger] self.entries@[i]).0
                                    == (#[trigger] self.entries@[j]).0;
                            if j == s0.len() {
                                assert(s0[i].0 == output_target);
                                assert(has_key(s0, output_target));
                            }
                        }
                    }
                    assert(final(self).handle_seq() =~= old(self).handle_seq().push(fresh));
                    lemma_map_len(s0);
                    lemma_map_len(self.entries@);
                }
                (fresh, true)
            },
        }
    }

    /// Removes the entry for `output_target`, returning the framebuffer
    /// handle the host must now destroy; a no-op returning `None` when no
    /// entry exists. Every other entry is left untouched.
    pub fn invalidate(&mut self, output_target: u64) -> (r: Option<u64>)
        requires
            old(self).wf(),
        ensures
            final(self).wf(),
            final(self)@ == old(self)@.remove(output_target),
            match r {
                Some(fb) => old(self)@.contains_key(output_target) && fb == old(
                    self,
                )@[output_target],
                None => !old(self)@.contains_key(output_target) && *final(self) == *old(self),
            },
            forall|k: u64|
                k != output_target && old(self)@.contains_key(k) ==> final(self)@.contains_key(k)
                    && final(self)@[k] == old(self)@[k],
    {
        proof {
            lemma_map_contains(self.entries@, output_target);
        }
        let n = self.entries.len();
        let mut i: usize = 0;
        while i < n
            invariant
                old(self) == self,
                self.wf(),
                n == self.entries@.len(),
                0 <= i <= n,
                forall|j: int| 0 <= j < i ==> (#[trigger] self.entries@[j]).0 != output_target,
            decreases n - i,
        {
            if self.entries[i].0 == output_target {
                proof {
                    lemma_map_at(self.entries@, i as int);
                    lemma_map_remove(self.entries@, i as int);
                }
                let fb = self.entries[i].1;
                self.entries.remove(i);
                proof {
                    assert(final(self)@ =~= old(self)@.remove(output_target));
                }
                return Some(fb);
            }
            i += 1;
        }
        proof {
            assert(final(self)@ =~= old(self)@.remove(output_target));
        }
        None
    }

    /// With one entry per key, the cache holds exactly as many handles as
    /// targets, and the handle of every cached target is among them.
    pub proof fn lemma_handles_cover(&self)
        requires
            self.wf(),
        ensures
            self.handle_seq().len() == self@.dom().len(),
            forall|k: u64| self@.contains_key(k) ==> self.handle_seq().contains(self@[k]),
    {
        lemma_map_len(self.entries@);
        assert forall|k: u64| self@.contains_key(k) implies self.handle_seq().contains(
            self@[k],
        ) by {
            lemma_map_contains(self.entries@, k);
            let i = choose|i: int|
                0 <= i < self.entries@.len() && (#[trigger] self.entries@[i]).0 == k;
            lemma_map_at(self.entries@, i);
            assert(self.handle_seq()[i] == self@[k]);
        }
    }

    /// Empties the cache, handing back every cached framebuffer handle in
    /// insertion order, each exactly once, for the host to release.
    pub fn drain_handles(&mut self) -> (r: Vec<u64>)
        requires
            old(self).wf(),
        ensures
            final(self).wf(),
            final(self)@ == Map::<u64, u64>::empty(),
            final(self).handle_seq() == Seq::<u64>::empty(),
            r@ == old(self).handle_seq(),
    {
        let n = self.entries.len();
        let mut r: Vec<u64> = Vec::new();
        let mut i: usize = 0;
        while i < n
            invariant
                old(self) == self,
                n == self.entries@.len(),
                0 <= i <= n,
                r@ == self.entries@.subrange(0, i as int).map_values(|e: (u64, u64)| e.1),
            decreases n - i,
        {
            let ghost before = self.entries@.subrange(0, i as int);
            r.push(self.entries[i].1);
            proof {
                assert(self.entries@.subrange(0, i as int + 1) =~= before.push(
                    self.entries@[i as int],
                ));
                assert(self.entries@.subrange(0, i as int + 1).map_values(
                    |e: (u64, u64)| e.1,
                ) =~= before.map_values(|e: (u64, u64)| e.1).push(self.entries@[i as int].1));
            }
            i += 1;
        }
        self.entries.clear();
        proof {
            assert(old(self).entries@.subrange(0, n as int) =~= old(self).entries@);
            assert(final(self).handle_seq() =~= Seq::<u64>::empty());
        }
        r
    }
}

/// Cache independence: removing one output target's entry neither disturbs
/// any other entry nor leaves anything of the removed one behind — so `N`
/// distinct identities occupy exactly `N` independent entries.
pub proof fn lemma_cache_independence(m: Map<u64, u64>, removed: u64, other: u64)
    requires
        other != removed,
    ensures
        !m.remove(removed).contains_key(removed),
        m.contains_key(other) ==> m.remove(removed).contains_key(other) && m.remove(removed)[other]
            == m[other],
        !m.contains_key(other) ==> !m.remove(removed).contains_key(other),
{
}

} // verus!
