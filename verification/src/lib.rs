//! A peer-to-peer node core: a peer lifecycle registry, a status aggregator,
//! and the translation of swarm events into application-facing events.
//!
//! The node discovers peers on the local network, tracks each peer's
//! lifecycle (discovered, connected, disconnected), and publishes ordered
//! application events over an unbounded channel.

pub mod event;
pub mod ext;
pub mod laws;
pub mod node;
pub mod peer;
pub mod ui;

pub use event::NetworkStatus;
pub use event::P2PEvent;
pub use event::SwarmInput;
pub use node::P2PError;
pub use node::P2PNode;
pub use node::RealP2PNode;
pub use peer::Peer;
pub use peer::PeerStatus;
