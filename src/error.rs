//! The error taxonomy of the node: protocol, event-handling and network
//! errors, and the application error that carries any of them.
use crate::peer::PeerIdentifier;
use vstd::prelude::*;

verus! {

/// One of the two propagation mechanisms.
#[derive(Debug, Clone, Copy, PartialEq, Eq, Structural)]
pub enum Mechanism {
    Floodsub,
    Gossipsub,
}

/// Why gossipsub refused to publish a message.
#[derive(Debug, PartialEq, Eq)]
pub enum PublishFailure {
    /// The message was published before.
    Duplicate,
    /// Signing the message failed.
    SigningError(String),
    /// No peer was known for the topic.
    InsufficientPeers,
    /// The message was too large.
    MessageTooLarge,
    /// Transforming the message failed.
    TransformFailed(String),
}

/// Errors of the protocol router.
#[derive(Debug)]
pub enum ProtocolError {
    /// The named mechanism refused the subscription to the topic.
    Subscription(Mechanism, String),
    /// Gossipsub refused to publish a message.
    Publish(PublishFailure),
    /// The gossipsub behaviour could not be built.
    GossipsubCreation(String),
    /// An argument was invalid.
    InvalidInput(String),
}

/// Errors of event handling.
#[derive(Debug)]
pub enum EventError {
    /// A floodsub event of an unexpected kind, named.
    FloodsubEvent(String),
    /// A gossipsub event of an unexpected kind, named.
    GossipsubEvent(String),
    /// A swarm event that the dispatcher does not handle, named.
    UnhandledSwarm(String),
}

/// Errors of the network layer.
#[derive(Debug)]
pub enum NetworkError {
    /// A connection was reported established with no connection open.
    Connection(PeerIdentifier),
    /// A connection closed because of the given cause.
    ConnectionClose(String),
    /// An incoming connection failed.
    IncomingConnection(String),
    /// The protocol router could not be built.
    ProtocolCreation(ProtocolError),
    /// Subscribing to the node's topic failed.
    TopicSubscription(ProtocolError),
    /// The swarm could not be built.
    SwarmBuilder(String),
    /// An address could not be parsed.
    AddressParse(String),
    /// Listening on an address failed.
    Listen(String),
}

/// Any error of the node.
#[derive(Debug)]
pub enum AppError {
    Protocol(ProtocolError),
    Event(EventError),
    Network(NetworkError),
}

} // verus!
