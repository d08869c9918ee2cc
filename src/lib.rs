//! Peer discovery and file sharing between devices on a local network.
//!
//! The library holds the rules of the protocol: the beacon that a node
//! announces, the registry of the peers it has heard, how each received
//! beacon is classified into an event, and what the file server answers.
//! Sockets, timers and the disk stay with the caller.
pub mod discovery;
pub mod download;
pub mod identity;
pub mod peer;
pub mod registry;
pub mod server;
