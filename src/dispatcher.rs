//! The node's control loop, one iteration at a time: classify the overlay
//! event, re-check the publish timer, and publish when allowed.
use vstd::prelude::*;
use crate::network::{GossipEvent, Overlay, OverlayEvent};
use crate::scheduler::{PublishOutcome, PublishScheduler, elapsed, payload_sized};

verus! {

/// The designated publisher's index.
pub const DEFAULT_PUBLISHER: u64 = 0;

/// Mesh sizes handed to the overlay for a target degree `d`.
#[derive(Debug, Clone, Copy, PartialEq, Eq, Structural)]
pub struct MeshParams {
    pub mesh_n: usize,
    pub mesh_n_low: usize,
    pub mesh_n_high: usize,
}

/// The mesh sizes for degree `d`: `d - 2` low, `d` target, `d + 4` high.
/// `None` when those do not exist in `usize`.
pub fn mesh_params(d: usize) -> (r: Option<MeshParams>)
    ensures
        r is None <==> (d < 2 || d + 4 > usize::MAX),
        r matches Some(p) ==> {
            &&& p.mesh_n == d
            &&& p.mesh_n_low == d - 2
            &&& p.mesh_n_high == d + 4
        },
{
    if d < 2 || d > usize::MAX - 4 {
        None
    } else {
        Some(MeshParams { mesh_n: d, mesh_n_low: d - 2, mesh_n_high: d + 4 })
    }
}

/// How the dispatcher files an overlay event.
#[derive(Debug, Clone, Copy, PartialEq, Eq, Structural)]
pub enum EventClass {
    ListenAddress,
    Message,
    Subscription,
    PeerTrouble,
    Unclassified,
}

pub open spec fn class_of(event: OverlayEvent) -> EventClass {
    match event {
        OverlayEvent::NewListenAddress => EventClass::ListenAddress,
        OverlayEvent::Behaviour(GossipEvent::Message) => EventClass::Message,
        OverlayEvent::Behaviour(GossipEvent::Subscribed) => EventClass::Subscription,
        OverlayEvent::Behaviour(GossipEvent::Unsubscribed) => EventClass::Subscription,
        OverlayEvent::Behaviour(GossipEvent::SlowPeer) => EventClass::PeerTrouble,
        OverlayEvent::Behaviour(GossipEvent::Unsupported) => EventClass::PeerTrouble,
        OverlayEvent::Other => EventClass::Unclassified,
    }
}

/// Files an overlay event; classification never changes the loop's course.
pub fn classify(event: OverlayEvent) -> (r: EventClass)
    ensures
        r == class_of(event),
{
    match event {
        OverlayEvent::NewListenAddress => EventClass::ListenAddress,
        OverlayEvent::Behaviour(g) => match g {
            GossipEvent::Message => EventClass::Message,
            GossipEvent::Subscribed => EventClass::Subscription,
            GossipEvent::Unsubscribed => EventClass::Subscription,
            GossipEvent::SlowPeer => EventClass::PeerTrouble,
            GossipEvent::Unsupported => EventClass::PeerTrouble,
        },
        OverlayEvent::Other => EventClass::Unclassified,
    }
}

/// What one pass of the loop did.
#[derive(Debug, Clone, PartialEq, Eq)]
pub struct Iteration {
    pub event: Option<EventClass>,
    pub armed: bool,
    pub publish: PublishOutcome,
}

/// The node's loop state.
pub struct Dispatcher {
    pub node_index: u64,
    pub publisher_index: u64,
    /// Peers needed before publishing.
    pub threshold: u64,
    pub payload_size: usize,
    pub scheduler: PublishScheduler,
}

impl Dispatcher {
    pub fn new(
        node_index: u64,
        publisher_index: u64,
        threshold: u64,
        payload_size: usize,
        scheduler: PublishScheduler,
    ) -> (r: Dispatcher)
        ensures
            r.node_index == node_index,
            r.publisher_index == publisher_index,
            r.threshold == threshold,
            r.payload_size == payload_size,
            r.scheduler == scheduler,
    {
        Dispatcher { node_index, publisher_index, threshold, payload_size, scheduler }
    }

    /// One pass of the loop: files `event` if one came, re-checks the timer at
    /// `now_ms`, then publishes if allowed. A node other than the publisher
    /// never publishes, and the flag is clear after every attempt.
    pub fn iterate<O: Overlay>(&mut self, overlay: &mut O, event: Option<OverlayEvent>, now_ms: u64) -> (r: Iteration)
        ensures
            final(self).node_index == old(self).node_index,
            final(self).publisher_index == old(self).publisher_index,
            final(self).threshold == old(self).threshold,
            final(self).payload_size == old(self).payload_size,
            final(self).scheduler.interval_ms == old(self).scheduler.interval_ms,
            r.event == (match event {
                Some(e) => Some(class_of(e)),
                None => None::<EventClass>,
            }),
            old(self).node_index != old(self).publisher_index ==> r.publish == PublishOutcome::Skipped,
            !(r.publish == PublishOutcome::Skipped) ==> !final(self).scheduler.eligible,
            r.publish == PublishOutcome::Skipped && (old(self).scheduler.eligible || r.armed)
                ==> final(self).scheduler.eligible,
            old(self).node_index == old(self).publisher_index && old(self).scheduler.eligible
                && old(self).threshold == 0 ==> !(r.publish == PublishOutcome::Skipped),
            payload_sized(r.publish, old(self).payload_size as nat),
            elapsed(now_ms, old(self).scheduler.last_checked_ms) < old(self).scheduler.interval_ms ==> {
                &&& final(self).scheduler.last_checked_ms == old(self).scheduler.last_checked_ms
                &&& !r.armed
            },
            elapsed(now_ms, old(self).scheduler.last_checked_ms) >= old(self).scheduler.interval_ms
                ==> final(self).scheduler.last_checked_ms == now_ms,
    {
        let class = match event {
            Some(e) => Some(classify(e)),
            None => None,
        };
        let armed = self.scheduler.on_timer(now_ms);
        let publish = self.scheduler.attempt_publish(
            overlay,
            self.node_index,
            self.publisher_index,
            self.threshold,
            self.payload_size,
        );
        Iteration { event: class, armed, publish }
    }

    /// Single-shot mode: arms the flag and attempts a publication `count`
    /// times in a row. A node other than the publisher sends nothing; with a
    /// threshold of zero the publisher attempts every time.
    pub fn publish_burst<O: Overlay>(&mut self, overlay: &mut O, count: usize) -> (r: Vec<PublishOutcome>)
        ensures
            final(self).node_index == old(self).node_index,
            final(self).publisher_index == old(self).publisher_index,
            final(self).threshold == old(self).threshold,
            final(self).payload_size == old(self).payload_size,
            r@.len() == count,
            old(self).node_index != old(self).publisher_index ==>
                forall|i: int| 0 <= i < count ==> #[trigger] r@[i] == PublishOutcome::Skipped,
            old(self).node_index == old(self).publisher_index && old(self).threshold == 0 ==> {
                &&& forall|i: int| 0 <= i < count ==> !(#[trigger] r@[i] == PublishOutcome::Skipped)
                &&& count > 0 ==> !final(self).scheduler.eligible
            },
            forall|i: int| 0 <= i < count ==> payload_sized(#[trigger] r@[i], old(self).payload_size as nat),
    {
        let mut out: Vec<PublishOutcome> = Vec::new();
        let mut k: usize = 0;
        while k < count
            invariant
                k <= count,
                out@.len() == k,
                self.node_index == old(self).node_index,
                self.publisher_index == old(self).publisher_index,
                self.threshold == old(self).threshold,
                self.payload_size == old(self).payload_size,
                self.node_index != self.publisher_index ==>
                    forall|i: int| 0 <= i < k ==> #[trigger] out@[i] == PublishOutcome::Skipped,
                self.node_index == self.publisher_index && self.threshold == 0 ==> {
                    &&& forall|i: int| 0 <= i < k ==> !(#[trigger] out@[i] == PublishOutcome::Skipped)
                    &&& k > 0 ==> !self.scheduler.eligible
                },
                forall|i: int| 0 <= i < k ==> payload_sized(#[trigger] out@[i], self.payload_size as nat),
            decreases count - k,
        {
            self.scheduler.eligible = true;
            let outcome = self.scheduler.attempt_publish(
                overlay,
                self.node_index,
                self.publisher_index,
                self.threshold,
                self.payload_size,
            );
            out.push(outcome);
            k = k + 1;
        }
        out
    }
}

} // verus!
