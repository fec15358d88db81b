//! What this core needs from the world around it: the overlay network and name
//! resolution. Implementations live with the caller, so tests can supply fakes.
use vstd::prelude::*;

verus! {

/// The publish/subscribe overlay's operations that the core drives.
pub trait Overlay {
    /// Starts a connection to `locator`. `true` means the overlay accepted the
    /// dial; this core counts such a peer as connected.
    fn dial(&mut self, locator: &str) -> bool;

    /// How many peers the overlay is connected to right now.
    fn connected_peer_count(&self) -> u64;

    /// Publishes `payload` on the node's topic. `true` means the overlay took it.
    fn publish(&mut self, payload: &[u8]) -> bool;
}

/// Resolution of host names to IPv4 addresses.
pub trait NameResolver {
    /// The addresses that `host` resolves to; empty when it does not resolve.
    fn resolve(&mut self, host: &str) -> Vec<[u8; 4]>;
}

/// What the pub/sub behaviour reports.
#[derive(Debug, Clone, Copy, PartialEq, Eq, Structural)]
pub enum GossipEvent {
    Message,
    Subscribed,
    Unsubscribed,
    SlowPeer,
    Unsupported,
}

/// An event out of the overlay's event stream.
#[derive(Debug, Clone, Copy, PartialEq, Eq, Structural)]
pub enum OverlayEvent {
    NewListenAddress,
    Behaviour(GossipEvent),
    Other,
}

} // verus!
