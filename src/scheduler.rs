//! The publish scheduler: a timer arms publication one time in three, and the
//! designated node publishes once armed and well enough connected.
use vstd::prelude::*;
use crate::digest::{message_id, hex_lower, sha256_of};
use crate::network::Overlay;

verus! {

/// Relies on `rand::Rng::gen_range` over `thread_rng`: a value of the range
/// `1..=3`, which is not empty.
#[verifier::external_body]
fn roll_one_to_three() -> (r: u64)
    ensures
        1 <= r <= 3,
{
    rand::Rng::gen_range(&mut rand::thread_rng(), 1u64..=3)
}

/// Relies on `rand::Rng::fill` over `thread_rng`: the buffer keeps its length
/// and is overwritten with random bytes.
#[verifier::external_body]
fn random_bytes(size: usize) -> (r: Vec<u8>)
    ensures
        r@.len() == size,
{
    let mut v = vec![0u8; size];
    rand::Rng::fill(&mut rand::thread_rng(), &mut v[..]);
    v
}

/// Time since `last`, or zero if the clock reads earlier than `last`.
pub open spec fn elapsed(now_ms: u64, last_ms: u64) -> u64 {
    if now_ms >= last_ms { (now_ms - last_ms) as u64 } else { 0 }
}

/// Whether a die roll arms the publish flag.
pub open spec fn roll_arms(roll: u64) -> bool {
    roll == 1
}

/// Of the three faces a roll can show, exactly one arms the flag.
pub proof fn lemma_one_face_in_three_arms()
    ensures
        Set::new(|r: u64| 1 <= r <= 3) == set![1u64, 2u64, 3u64],
        Set::new(|r: u64| 1 <= r <= 3 && roll_arms(r)) == set![1u64],
        set![1u64, 2u64, 3u64].len() == 3,
        set![1u64].len() == 1,
{
    assert(Set::new(|r: u64| 1 <= r <= 3) =~= set![1u64, 2u64, 3u64]);
    assert(Set::new(|r: u64| 1 <= r <= 3 && roll_arms(r)) =~= set![1u64]);
    assert(set![1u64, 2u64, 3u64].len() == 3) by {
        assert(set![1u64, 2u64].len() == 2);
    }
}

/// How many of `rolls` arm the flag.
pub open spec fn arming_count(rolls: Seq<u64>) -> nat
    decreases rolls.len(),
{
    if rolls.len() == 0 {
        0
    } else {
        arming_count(rolls.drop_last()) + if roll_arms(rolls.last()) { 1nat } else { 0nat }
    }
}

/// A scheduler after a tick at `now_ms` with roll `roll`, and whether that tick
/// armed it.
pub open spec fn tick_spec(s: PublishScheduler, now_ms: u64, roll: u64) -> (PublishScheduler, bool) {
    if elapsed(now_ms, s.last_checked_ms) >= s.interval_ms {
        (
            PublishScheduler {
                interval_ms: s.interval_ms,
                last_checked_ms: now_ms,
                eligible: s.eligible || roll_arms(roll),
            },
            roll_arms(roll),
        )
    } else {
        (s, false)
    }
}

/// A scheduler after ticks at `times` with one roll each from `rolls`, and how
/// many of those ticks armed it.
pub open spec fn ticks_spec(s: PublishScheduler, times: Seq<u64>, rolls: Seq<u64>) -> (PublishScheduler, nat)
    decreases times.len(),
{
    if times.len() == 0 || rolls.len() != times.len() {
        (s, 0)
    } else {
        let before = ticks_spec(s, times.drop_last(), rolls.drop_last());
        let after = tick_spec(before.0, times.last(), rolls.last());
        (after.0, before.1 + if after.1 { 1nat } else { 0nat })
    }
}

/// Each tick of `times` comes at least one interval after the previous one, the
/// first at least one interval after the scheduler's last check.
pub open spec fn spaced(s: PublishScheduler, times: Seq<u64>) -> bool {
    forall|i: int|
        0 <= i < times.len() ==> elapsed(
            #[trigger] times[i],
            if i == 0 { s.last_checked_ms } else { times[i - 1] },
        ) >= s.interval_ms
}

/// Over ticks spaced at the configured interval, the flag is armed exactly as
/// many times as the rolls show 1; with rolls uniform over 1..=3 that count is
/// a third of the ticks in expectation.
pub proof fn lemma_spaced_ticks_count_armings(s: PublishScheduler, times: Seq<u64>, rolls: Seq<u64>)
    requires
        times.len() == rolls.len(),
        spaced(s, times),
    ensures
        ticks_spec(s, times, rolls).1 == arming_count(rolls),
        ticks_spec(s, times, rolls).0.interval_ms == s.interval_ms,
        times.len() == 0 ==> ticks_spec(s, times, rolls).0 == s,
        times.len() > 0 ==> ticks_spec(s, times, rolls).0.last_checked_ms == times.last(),
    decreases times.len(),
{
    if times.len() > 0 {
        let t0 = times.drop_last();
        let r0 = rolls.drop_last();
        assert(spaced(s, t0)) by {
            assert forall|i: int| 0 <= i < t0.len() implies elapsed(
                #[trigger] t0[i],
                if i == 0 { s.last_checked_ms } else { t0[i - 1] },
            ) >= s.interval_ms by {
                assert(t0[i] == times[i]);
                if i > 0 {
                    assert(t0[i - 1] == times[i - 1]);
                }
            }
        }
        lemma_spaced_ticks_count_armings(s, t0, r0);
        let k = times.len() - 1;
        assert(elapsed(times[k], if k == 0 { s.last_checked_ms } else { times[k - 1] }) >= s.interval_ms);
        if k > 0 {
            assert(t0.last() == times[k - 1]);
        }
    }
}

/// Whether the designated node may publish now.
pub open spec fn publish_allowed(
    node_index: u64,
    publisher_index: u64,
    eligible: bool,
    connected_peers: u64,
    threshold: u64,
) -> bool {
    node_index == publisher_index && eligible && connected_peers >= threshold
}

/// What a publish attempt came to.
#[derive(Debug, Clone, PartialEq, Eq)]
pub enum PublishOutcome {
    /// The conditions for publishing did not hold; nothing was sent.
    Skipped,
    /// The overlay took the payload, whose identifier is given.
    Published { message_id: String },
    /// The overlay refused the payload with the given identifier.
    Failed { message_id: String },
}

/// An outcome whose attempt, if any, published a payload of `size` bytes: its
/// identifier is the digest of some `size`-byte payload.
pub open spec fn payload_sized(r: PublishOutcome, size: nat) -> bool {
    match r {
        PublishOutcome::Published { message_id } => exists|p: Seq<u8>|
            p.len() == size && message_id@ == hex_lower(#[trigger] sha256_of(p)),
        PublishOutcome::Failed { message_id } => exists|p: Seq<u8>|
            p.len() == size && message_id@ == hex_lower(#[trigger] sha256_of(p)),
        PublishOutcome::Skipped => true,
    }
}

/// Holds the publish-eligible flag and the time it was last checked.
pub struct PublishScheduler {
    pub interval_ms: u64,
    pub last_checked_ms: u64,
    pub eligible: bool,
}

impl PublishScheduler {
    /// A scheduler first checked at `now_ms`, armed from the start when
    /// `eligible` holds.
    pub fn new(interval_ms: u64, now_ms: u64, eligible: bool) -> (r: PublishScheduler)
        ensures
            r.interval_ms == interval_ms,
            r.last_checked_ms == now_ms,
            r.eligible == eligible,
    {
        PublishScheduler { interval_ms, last_checked_ms: now_ms, eligible }
    }

    /// Whether a check is due at `now_ms`.
    pub fn is_due(&self, now_ms: u64) -> (r: bool)
        ensures
            r == (elapsed(now_ms, self.last_checked_ms) >= self.interval_ms),
    {
        let e = if now_ms >= self.last_checked_ms { now_ms - self.last_checked_ms } else { 0 };
        e >= self.interval_ms
    }

    /// A timer tick at `now_ms` with die roll `roll`. When a check is due the
    /// timestamp moves to `now_ms`, and a roll of 1 arms the flag. The timer
    /// never clears the flag. Returns whether this tick armed it.
    pub fn tick(&mut self, now_ms: u64, roll: u64) -> (r: bool)
        ensures
            final(self).interval_ms == old(self).interval_ms,
            (*final(self), r) == tick_spec(*old(self), now_ms, roll),
            elapsed(now_ms, old(self).last_checked_ms) >= old(self).interval_ms ==> {
                &&& final(self).last_checked_ms == now_ms
                &&& final(self).eligible == (old(self).eligible || roll_arms(roll))
                &&& r == roll_arms(roll)
            },
            elapsed(now_ms, old(self).last_checked_ms) < old(self).interval_ms ==> {
                &&& final(self).last_checked_ms == old(self).last_checked_ms
                &&& final(self).eligible == old(self).eligible
                &&& !r
            },
    {
        if self.is_due(now_ms) {
            self.last_checked_ms = now_ms;
            if roll == 1 {
                self.eligible = true;
                true
            } else {
                false
            }
        } else {
            false
        }
    }

    /// A timer tick at `now_ms` that rolls the die itself when a check is due.
    pub fn on_timer(&mut self, now_ms: u64) -> (r: bool)
        ensures
            final(self).interval_ms == old(self).interval_ms,
            old(self).eligible ==> final(self).eligible,
            r ==> final(self).eligible,
            elapsed(now_ms, old(self).last_checked_ms) >= old(self).interval_ms
                ==> final(self).last_checked_ms == now_ms,
            elapsed(now_ms, old(self).last_checked_ms) < old(self).interval_ms ==> {
                &&& final(self).last_checked_ms == old(self).last_checked_ms
                &&& final(self).eligible == old(self).eligible
                &&& !r
            },
    {
        if self.is_due(now_ms) {
            let roll = roll_one_to_three();
            self.tick(now_ms, roll)
        } else {
            false
        }
    }

    /// Whether node `node_index` may publish with `connected_peers` peers.
    pub fn should_publish(&self, node_index: u64, publisher_index: u64, connected_peers: u64, threshold: u64) -> (r: bool)
        ensures
            r == publish_allowed(node_index, publisher_index, self.eligible, connected_peers, threshold),
    {
        node_index == publisher_index && self.eligible && connected_peers >= threshold
    }

    /// Publishes `payload` when allowed with `connected_peers` peers. Any
    /// attempt, accepted or not, clears the flag; no attempt leaves it alone.
    pub fn publish_payload<O: Overlay>(
        &mut self,
        overlay: &mut O,
        payload: &[u8],
        node_index: u64,
        publisher_index: u64,
        connected_peers: u64,
        threshold: u64,
    ) -> (r: PublishOutcome)
        ensures
            final(self).interval_ms == old(self).interval_ms,
            final(self).last_checked_ms == old(self).last_checked_ms,
            publish_allowed(node_index, publisher_index, old(self).eligible, connected_peers, threshold) ==> {
                &&& !final(self).eligible
                &&& match r {
                    PublishOutcome::Published { message_id } => message_id@ == hex_lower(sha256_of(payload@)),
                    PublishOutcome::Failed { message_id } => message_id@ == hex_lower(sha256_of(payload@)),
                    PublishOutcome::Skipped => false,
                }
            },
            !publish_allowed(node_index, publisher_index, old(self).eligible, connected_peers, threshold) ==> {
                &&& r == PublishOutcome::Skipped
                &&& final(self).eligible == old(self).eligible
            },
    {
        if self.should_publish(node_index, publisher_index, connected_peers, threshold) {
            let accepted = overlay.publish(payload);
            self.eligible = false;
            let id = message_id(payload);
            if accepted {
                PublishOutcome::Published { message_id: id }
            } else {
                PublishOutcome::Failed { message_id: id }
            }
        } else {
            PublishOutcome::Skipped
        }
    }

    /// Reads the overlay's peer count and, when allowed, publishes a fresh
    /// random payload of `payload_size` bytes.
    pub fn attempt_publish<O: Overlay>(
        &mut self,
        overlay: &mut O,
        node_index: u64,
        publisher_index: u64,
        threshold: u64,
        payload_size: usize,
    ) -> (r: PublishOutcome)
        ensures
            final(self).interval_ms == old(self).interval_ms,
            final(self).last_checked_ms == old(self).last_checked_ms,
            !(r == PublishOutcome::Skipped) ==> !final(self).eligible,
            node_index != publisher_index || !old(self).eligible ==> {
                &&& r == PublishOutcome::Skipped
                &&& final(self).eligible == old(self).eligible
            },
            r == PublishOutcome::Skipped ==> final(self).eligible == old(self).eligible,
            node_index == publisher_index && old(self).eligible && threshold == 0
                ==> !(r == PublishOutcome::Skipped),
            payload_sized(r, payload_size as nat),
    {
        let connected = overlay.connected_peer_count();
        if self.should_publish(node_index, publisher_index, connected, threshold) {
            let payload = random_bytes(payload_size);
            let r = self.publish_payload(overlay, payload.as_slice(), node_index, publisher_index, connected, threshold);
            proof {
                let p = payload@;
                assert(p.len() == payload_size);
                assert(sha256_of(p) == sha256_of(payload@));
            }
            r
        } else {
            PublishOutcome::Skipped
        }
    }
}

} // verus!
