//! Drawing dial candidates without replacement from the cluster, never self.
use vstd::prelude::*;

verus! {

pub assume_specification<T>[ rand::random::<T> ]() -> (r: T)
    where
        rand::distributions::Standard: rand::distributions::Distribution<T>,
;

/// The candidate that a raw draw stands for.
pub open spec fn candidate_of(cluster_size: u64, draw: u64) -> u64
    recommends
        cluster_size > 0,
{
    draw % cluster_size
}

/// Samples peer indices in `[0, cluster_size)`, skipping `self_index` and every
/// index tried before.
pub struct PeerSampler {
    cluster_size: u64,
    self_index: u64,
    tried: Vec<u64>,
}

impl PeerSampler {
    pub closed spec fn spec_cluster_size(&self) -> u64 {
        self.cluster_size
    }

    pub closed spec fn spec_self_index(&self) -> u64 {
        self.self_index
    }

    /// The size of the cluster that candidates are drawn from.
    #[verifier::when_used_as_spec(spec_cluster_size)]
    pub fn cluster_size(&self) -> (r: u64)
        ensures
            r == self.spec_cluster_size(),
    {
        self.cluster_size
    }

    /// The index that is never drawn.
    #[verifier::when_used_as_spec(spec_self_index)]
    pub fn self_index(&self) -> (r: u64)
        ensures
            r == self.spec_self_index(),
    {
        self.self_index
    }

    /// The indices tried so far, in the order they were drawn.
    pub closed spec fn tried_seq(&self) -> Seq<u64> {
        self.tried@
    }

    pub open spec fn tried_set(&self) -> Set<u64> {
        self.tried_seq().to_set()
    }

    pub open spec fn wf(&self) -> bool {
        &&& self.cluster_size() > 0
        &&& self.tried_seq().no_duplicates()
        &&& forall|i: int|
            0 <= i < self.tried_seq().len() ==> {
                &&& #[trigger] self.tried_seq()[i] < self.cluster_size()
                &&& self.tried_seq()[i] != self.self_index()
            }
    }

    /// A sampler that has tried nothing yet.
    pub fn new(cluster_size: u64, self_index: u64) -> (r: PeerSampler)
        requires
            cluster_size > 0,
        ensures
            r.wf(),
            r.cluster_size() == cluster_size,
            r.self_index() == self_index,
            r.tried_seq() == Seq::<u64>::empty(),
    {
        PeerSampler { cluster_size, self_index, tried: Vec::new() }
    }

    /// How many distinct indices have been tried.
    pub fn tried_count(&self) -> (r: usize)
        ensures
            r == self.tried_seq().len(),
    {
        self.tried.len()
    }

    /// Whether `index` has been tried.
    pub fn has_tried(&self, index: u64) -> (r: bool)
        ensures
            r == self.tried_seq().contains(index),
    {
        let mut i: usize = 0;
        while i < self.tried.len()
            invariant
                i <= self.tried@.len(),
                forall|j: int| 0 <= j < i ==> self.tried@[j] != index,
            decreases self.tried@.len() - i,
        {
            if self.tried[i] == index {
                return true;
            }
            i = i + 1;
        }
        false
    }

    /// Judges one raw draw. A draw that lands on self or on an index already
    /// tried is discarded; any other index is recorded as tried and returned.
    pub fn consider_draw(&mut self, draw: u64) -> (r: Option<u64>)
        requires
            old(self).wf(),
        ensures
            final(self).wf(),
            final(self).cluster_size() == old(self).cluster_size(),
            final(self).self_index() == old(self).self_index(),
            ({
                let c = candidate_of(old(self).cluster_size(), draw);
                if c == old(self).self_index() || old(self).tried_seq().contains(c) {
                    r is None && final(self).tried_seq() == old(self).tried_seq()
                } else {
                    r == Some(c) && final(self).tried_seq() == old(self).tried_seq().push(c)
                }
            }),
    {
        let c = draw % self.cluster_size;
        if c == self.self_index || self.has_tried(c) {
            None
        } else {
            self.tried.push(c);
            proof {
                let s = self.tried@;
                assert(s.drop_last() == old(self).tried@);
                assert forall|i: int, j: int| 0 <= i < j < s.len() implies s[i] != s[j] by {
                    if j == s.len() - 1 {
                        assert(old(self).tried@[i] == s[i]);
                    }
                }
            }
            Some(c)
        }
    }

    /// Draws at random until a fresh candidate comes up, at most `max_draws`
    /// times. `None` means every draw was discarded.
    pub fn next_candidate(&mut self, max_draws: u64) -> (r: Option<u64>)
        requires
            old(self).wf(),
        ensures
            final(self).wf(),
            final(self).cluster_size() == old(self).cluster_size(),
            final(self).self_index() == old(self).self_index(),
            r is None ==> final(self).tried_seq() == old(self).tried_seq(),
            r matches Some(c) ==> {
                &&& c < old(self).cluster_size()
                &&& c != old(self).self_index()
                &&& !old(self).tried_seq().contains(c)
                &&& final(self).tried_seq() == old(self).tried_seq().push(c)
            },
    {
        let mut n: u64 = 0;
        while n < max_draws
            invariant
                self.wf(),
                self.cluster_size() == old(self).cluster_size(),
                self.self_index() == old(self).self_index(),
                self.tried_seq() == old(self).tried_seq(),
            decreases max_draws - n,
        {
            let draw = rand::random::<u64>();
            let got = self.consider_draw(draw);
            if got.is_some() {
                return got;
            }
            n = n + 1;
        }
        None
    }
}

/// The number of distinct indices tried equals the number of successful draws,
/// and never exceeds the `cluster_size - 1` indices other than self.
pub proof fn lemma_tried_bounded(s: PeerSampler)
    requires
        s.wf(),
        s.self_index() < s.cluster_size(),
    ensures
        s.tried_set().len() == s.tried_seq().len(),
        s.tried_seq().len() <= s.cluster_size() - 1,
{
    s.tried_seq().unique_seq_to_set();
    let others = vstd::set_lib::set_int_range(0, s.cluster_size() as int).remove(s.self_index() as int);
    vstd::set_lib::lemma_int_range(0, s.cluster_size() as int);
    let as_int = s.tried_set().map(|x: u64| x as int);
    assert(as_int.subset_of(others)) by {
        assert forall|v: int| as_int.contains(v) implies others.contains(v) by {
            let x = choose|x: u64| s.tried_set().contains(x) && v == x as int;
            let i = choose|i: int| 0 <= i < s.tried_seq().len() && s.tried_seq()[i] == x;
            assert(s.tried_seq()[i] < s.cluster_size());
        }
    }
    vstd::set_lib::lemma_len_subset(as_int, others);
    assert(s.tried_set().finite());
    vstd::set_lib::lemma_map_size(s.tried_set(), as_int, |x: u64| x as int);
}

/// While fewer than `cluster_size - 1` indices have been tried, some draw
/// yields a fresh candidate: sampling can always make progress.
pub proof fn lemma_fresh_draw_exists(s: PeerSampler)
    requires
        s.wf(),
        s.self_index() < s.cluster_size(),
        s.tried_seq().len() < s.cluster_size() - 1,
    ensures
        exists|d: u64| #![trigger candidate_of(s.cluster_size(), d)]
            d < s.cluster_size()
            && candidate_of(s.cluster_size(), d) != s.self_index()
            && !s.tried_seq().contains(candidate_of(s.cluster_size(), d)),
{
    let n = s.cluster_size();
    s.tried_seq().unique_seq_to_set();
    let others = vstd::set_lib::set_int_range(0, n as int).remove(s.self_index() as int);
    vstd::set_lib::lemma_int_range(0, n as int);
    let as_int = s.tried_set().map(|x: u64| x as int);
    vstd::set_lib::lemma_map_size(s.tried_set(), as_int, |x: u64| x as int);
    if !exists|v: int| others.contains(v) && !as_int.contains(v) {
        assert(others.subset_of(as_int));
        vstd::set_lib::lemma_len_subset(others, as_int);
        assert(false);
    }
    let v = choose|v: int| others.contains(v) && !as_int.contains(v);
    let d = v as u64;
    assert(0 <= v < n);
    vstd::arithmetic::div_mod::lemma_small_mod(d as nat, n as nat);
    assert(candidate_of(n, d) == d);
    if s.tried_seq().contains(d) {
        assert(s.tried_set().contains(d));
        assert(as_int.contains(d as int));
    }
}

} // verus!
