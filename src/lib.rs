//! Deterministic bootstrap and probabilistic publication for a fixed-size
//! cluster of publish/subscribe nodes.
//!
//! - `naming`: host names, locators, and the node index read from a host name.
//! - `identity`: the key seed and public key derived from a node index.
//! - `sampler`: dial candidates drawn without replacement, never self.
//! - `network`: the overlay and name resolution that the core drives.
//! - `bootstrap`: dialing sampled peers until a target count is reached.
//! - `digest`: message identifiers.
//! - `scheduler`: arming and performing publication.
//! - `dispatcher`: one pass of the node's control loop.
pub mod naming;
pub mod identity;
pub mod sampler;
pub mod network;
pub mod bootstrap;
pub mod digest;
pub mod scheduler;
pub mod dispatcher;
