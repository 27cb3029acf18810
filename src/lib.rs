//! Protocol orchestration for a peer-to-peer chat node: a per-sender rate
//! limiter, a router that keeps a flood-broadcast and a mesh-gossip mechanism
//! behind one subscribe/publish surface, and a dispatcher that classifies
//! network events and user commands.
pub mod config;
pub mod error;
pub mod event;
pub mod mechanisms;
pub mod network;
pub mod peer;
pub mod protocol;
pub mod rate_limit;
pub mod ui;
