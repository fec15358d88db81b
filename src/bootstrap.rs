//! The bootstrap phase: dial sampled peers until the target count is reached or
//! the draw budget runs out.
use vstd::prelude::*;
use crate::naming::{host_name_for, locator_for, locator_spec, SERVICE_PORT};
use crate::network::{NameResolver, Overlay};
use crate::sampler::{PeerSampler, candidate_of, lemma_tried_bounded};

verus! {

/// Why bootstrap gave up.
#[derive(Debug, Clone, Copy, PartialEq, Eq, Structural)]
pub enum BootstrapError {
    /// The draw budget ran out with `connected` peers short of the target.
    Timeout { connected: u64 },
}

/// The bootstrap controller's state.
pub struct Bootstrap {
    pub sampler: PeerSampler,
    pub target: u64,
    /// Peers whose dial was accepted, in order.
    pub peers: Vec<u64>,
}

impl Bootstrap {
    pub open spec fn wf(&self) -> bool {
        &&& self.sampler.wf()
        &&& self.sampler.self_index() < self.sampler.cluster_size()
        &&& self.peers@.len() <= self.target
        &&& self.peers@.len() <= self.sampler.tried_seq().len()
        &&& self.peers@.no_duplicates()
        &&& forall|i: int|
            0 <= i < self.peers@.len() ==> {
                &&& #[trigger] self.peers@[i] < self.sampler.cluster_size()
                &&& self.peers@[i] != self.sampler.self_index()
                &&& self.sampler.tried_seq().contains(self.peers@[i])
            }
    }

    /// The number of connections made so far.
    pub open spec fn connection_count(&self) -> nat {
        self.peers@.len()
    }

    /// A controller that has tried nothing and connected to nobody.
    pub fn new(cluster_size: u64, self_index: u64, target: u64) -> (r: Bootstrap)
        requires
            self_index < cluster_size,
        ensures
            r.wf(),
            r.sampler.cluster_size() == cluster_size,
            r.sampler.self_index() == self_index,
            r.sampler.tried_seq() == Seq::<u64>::empty(),
            r.target == target,
            r.peers@ == Seq::<u64>::empty(),
    {
        Bootstrap { sampler: PeerSampler::new(cluster_size, self_index), target, peers: Vec::new() }
    }

    /// Whether the target count has been reached.
    pub fn is_complete(&self) -> (r: bool)
        requires
            self.wf(),
        ensures
            r == (self.connection_count() == self.target),
    {
        self.peers.len() as u64 == self.target
    }

    /// The number of connections made so far.
    pub fn connected(&self) -> (r: u64)
        requires
            self.wf(),
        ensures
            r == self.connection_count(),
    {
        self.peers.len() as u64
    }

    /// Records how the dial of a fresh candidate went: an accepted dial adds the
    /// candidate to the connected peers, a refused one changes nothing.
    pub fn record_dial(&mut self, candidate: u64, accepted: bool)
        requires
            old(self).wf(),
            old(self).connection_count() < old(self).target,
            candidate < old(self).sampler.cluster_size(),
            candidate != old(self).sampler.self_index(),
            old(self).sampler.tried_seq().contains(candidate),
            !old(self).peers@.contains(candidate),
            old(self).peers@.len() < old(self).sampler.tried_seq().len(),
        ensures
            final(self).wf(),
            final(self).sampler == old(self).sampler,
            final(self).target == old(self).target,
            accepted ==> final(self).peers@ == old(self).peers@.push(candidate),
            !accepted ==> final(self).peers@ == old(self).peers@,
    {
        if accepted {
            self.peers.push(candidate);
            proof {
                let s = self.peers@;
                assert(s.drop_last() == old(self).peers@);
                assert forall|i: int, j: int| 0 <= i < j < s.len() implies s[i] != s[j] by {
                    if j == s.len() - 1 {
                        assert(old(self).peers@[i] == s[i]);
                    }
                }
            }
        }
    }

    /// One round of the loop on a raw draw: the draw is judged by the sampler;
    /// a fresh candidate is dialed and the outcome recorded. Returns the
    /// candidate that was dialed, if any, with whether a dial was accepted.
    pub fn step<O: Overlay, R: NameResolver>(
        &mut self,
        overlay: &mut O,
        resolver: &mut R,
        draw: u64,
    ) -> (r: Option<(u64, bool)>)
        requires
            old(self).wf(),
            old(self).connection_count() < old(self).target,
        ensures
            final(self).wf(),
            final(self).target == old(self).target,
            final(self).sampler.cluster_size() == old(self).sampler.cluster_size(),
            final(self).sampler.self_index() == old(self).sampler.self_index(),
            ({
                let c = candidate_of(old(self).sampler.cluster_size(), draw);
                if c == old(self).sampler.self_index() || old(self).sampler.tried_seq().contains(c) {
                    &&& r is None
                    &&& final(self).sampler.tried_seq() == old(self).sampler.tried_seq()
                    &&& final(self).peers@ == old(self).peers@
                } else {
                    &&& r matches Some((d, accepted)) && d == c
                    &&& final(self).sampler.tried_seq() == old(self).sampler.tried_seq().push(c)
                    &&& (r matches Some((_, true)) ==> final(self).peers@ == old(self).peers@.push(c))
                    &&& (r matches Some((_, false)) ==> final(self).peers@ == old(self).peers@)
                }
            }),
    {
        let got = self.sampler.consider_draw(draw);
        match got {
            None => None,
            Some(c) => {
                let accepted = dial_candidate(overlay, resolver, c);
                proof {
                    let t = self.sampler.tried_seq();
                    assert(t.last() == c);
                    assert(t.contains(c));
                    assert forall|i: int| 0 <= i < self.peers@.len() implies
                        t.contains(#[trigger] self.peers@[i]) by {
                        let x = self.peers@[i];
                        assert(old(self).sampler.tried_seq().contains(x));
                        let k = choose|k: int| 0 <= k < old(self).sampler.tried_seq().len()
                            && old(self).sampler.tried_seq()[k] == x;
                        assert(t[k] == x);
                    }
                    assert(!self.peers@.contains(c)) by {
                        if self.peers@.contains(c) {
                            let i = choose|i: int| 0 <= i < self.peers@.len() && self.peers@[i] == c;
                            assert(old(self).sampler.tried_seq().contains(self.peers@[i]));
                        }
                    }
                }
                self.record_dial(c, accepted);
                Some((c, accepted))
            }
        }
    }
}

/// The locators of `addrs` at `port`, one per address, in order.
pub fn locators_for(addrs: &Vec<[u8; 4]>, port: u16) -> (r: Vec<String>)
    ensures
        r@.len() == addrs@.len(),
        forall|i: int| 0 <= i < addrs@.len() ==> #[trigger] r@[i]@ == locator_spec(addrs@[i]@, port),
{
    let mut out: Vec<String> = Vec::new();
    let mut i: usize = 0;
    while i < addrs.len()
        invariant
            i <= addrs@.len(),
            out@.len() == i,
            forall|j: int| 0 <= j < i ==> #[trigger] out@[j]@ == locator_spec(addrs@[j]@, port),
        decreases addrs@.len() - i,
    {
        out.push(locator_for(addrs[i], port));
        i = i + 1;
    }
    out
}

/// Dials `locators` in order and stops at the first accepted dial. Returns the
/// position of the accepted locator, or `None` when every dial was refused.
pub fn dial_first<O: Overlay>(overlay: &mut O, locators: &Vec<String>) -> (r: Option<usize>)
    ensures
        r matches Some(i) ==> i < locators@.len(),
{
    let mut i: usize = 0;
    while i < locators.len()
        invariant
            i <= locators@.len(),
        decreases locators@.len() - i,
    {
        if overlay.dial(locators[i].as_str()) {
            return Some(i);
        }
        i = i + 1;
    }
    None
}

/// Resolves `candidate`'s host name (`host_name_for`), builds a locator at the
/// service port for each resolved address (`locators_for`) and dials them in
/// turn (`dial_first`). A name that does not resolve gives `false`.
fn dial_candidate<O: Overlay, R: NameResolver>(overlay: &mut O, resolver: &mut R, candidate: u64) -> bool {
    let host = host_name_for(candidate);
    let addrs = resolver.resolve(host.as_str());
    let locators = locators_for(&addrs, SERVICE_PORT);
    dial_first(overlay, &locators).is_some()
}

/// Runs bootstrap for node `self_index` in a cluster of `cluster_size` nodes:
/// draws at random, at most `max_draws` times, until `target` dials have been
/// accepted. Each index is tried at most once.
pub fn run_bootstrap<O: Overlay, R: NameResolver>(
    overlay: &mut O,
    resolver: &mut R,
    cluster_size: u64,
    self_index: u64,
    target: u64,
    max_draws: u64,
) -> (r: Result<Bootstrap, BootstrapError>)
    requires
        self_index < cluster_size,
    ensures
        r matches Ok(b) ==> {
            &&& b.wf()
            &&& b.target == target
            &&& b.connection_count() == target
            &&& b.sampler.cluster_size() == cluster_size
            &&& b.sampler.self_index() == self_index
        },
        r matches Err(BootstrapError::Timeout { connected }) ==> connected < target,
        target >= cluster_size ==> r is Err,
{
    let mut b = Bootstrap::new(cluster_size, self_index, target);
    let mut n: u64 = 0;
    while n < max_draws && !b.is_complete()
        invariant
            b.wf(),
            b.target == target,
            b.sampler.cluster_size() == cluster_size,
            b.sampler.self_index() == self_index,
        decreases max_draws - n,
    {
        let draw = rand::random::<u64>();
        b.step(overlay, resolver, draw);
        n = n + 1;
    }
    proof {
        lemma_tried_bounded(b.sampler);
    }
    if b.is_complete() {
        Ok(b)
    } else {
        let connected = b.connected();
        Err(BootstrapError::Timeout { connected })
    }
}

} // verus!
