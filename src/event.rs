//! The event dispatcher: classifies a network event, gates inbound messages
//! through the rate limiter, keeps floodsub's partial view up to date, and
//! turns every outcome into a result or an error.
//!
//! Messages of the two mechanisms are handled independently: the same
//! payload arriving through floodsub and through gossipsub is two deliveries,
//! each counted against its sender.
use crate::error::{AppError, EventError, Mechanism, NetworkError};
use crate::mechanisms::{flood_partial_view, flood_topics, floodsub_add_node};
use crate::peer::PeerIdentifier;
use crate::protocol::{FloodsubEvent, GossipsubEvent, ProtocolEvent};
use crate::rate_limit::{
    accepts, after_message, elapsed, RateLimiter, MAX_MESSAGES_PER_INTERVAL, RATE_LIMIT_INTERVAL_MS,
};
use libp2p::floodsub::Floodsub;
use vstd::prelude::*;

verus! {

/// A network event, as the swarm reports it.
#[derive(Debug)]
pub enum NetworkEvent {
    /// An event of one of the propagation mechanisms.
    Behaviour(ProtocolEvent),
    /// The node listens on a new address.
    NewListenAddr { listener_id: String, address: String },
    /// A connection to a peer was established; `num_established` counts the
    /// connections to that peer now open.
    ConnectionEstablished { peer_id: PeerIdentifier, num_established: u32 },
    /// A connection to a peer closed, with the error that closed it if any.
    ConnectionClosed { peer_id: PeerIdentifier, num_established: u32, cause: Option<String> },
    /// A peer is connecting to the node.
    IncomingConnection { local_addr: String, send_back_addr: String },
    /// A connection from a peer failed.
    IncomingConnectionError { local_addr: String, send_back_addr: String, error: String },
    /// The node is dialing a peer.
    Dialing { target: Option<PeerIdentifier> },
    /// Any other swarm event, by name.
    Other(String),
}

/// What handling an event did.
#[derive(Debug)]
pub enum Handled {
    /// A message was accepted for display.
    Delivered { mechanism: Mechanism, source: PeerIdentifier, data: Vec<u8> },
    /// A message was dropped because its sender exceeded the rate limit.
    RateLimited { mechanism: Mechanism, source: PeerIdentifier },
    /// A peer joined floodsub's partial view.
    PeerAdded(PeerIdentifier),
    /// The event was informational only.
    Logged,
}

/// The peer that an inbound message is charged to: the sender for floodsub,
/// the propagation source for gossipsub. `None` for other events.
pub open spec fn charged_peer(event: NetworkEvent) -> Option<Seq<u8>> {
    match event {
        NetworkEvent::Behaviour(ProtocolEvent::Floodsub(FloodsubEvent::Message { source, .. })) => Some(
            source@,
        ),
        NetworkEvent::Behaviour(
            ProtocolEvent::Gossipsub(GossipsubEvent::Message { propagation_source, .. }),
        ) => Some(propagation_source@),
        _ => None,
    }
}

/// The mechanism and payload of an inbound message event.
pub open spec fn message_of(event: NetworkEvent) -> Option<(Mechanism, Seq<u8>)> {
    match event {
        NetworkEvent::Behaviour(ProtocolEvent::Floodsub(FloodsubEvent::Message { data, .. })) => Some(
            (Mechanism::Floodsub, data@),
        ),
        NetworkEvent::Behaviour(ProtocolEvent::Gossipsub(GossipsubEvent::Message { data, .. })) => Some(
            (Mechanism::Gossipsub, data@),
        ),
        _ => None,
    }
}

/// The rate-limit table after handling `event` at time `now`.
pub open spec fn limiter_after(
    event: NetworkEvent,
    m: Map<Seq<u8>, (u64, usize)>,
    now: u64,
) -> Map<Seq<u8>, (u64, usize)> {
    match charged_peer(event) {
        Some(p) => after_message(m, p, now),
        None => m,
    }
}

/// Whether handling `event` at time `now` with the table `m` delivers a
/// message.
pub open spec fn delivers(event: NetworkEvent, m: Map<Seq<u8>, (u64, usize)>, now: u64) -> bool {
    match charged_peer(event) {
        Some(p) => accepts(m, p, now),
        None => false,
    }
}

/// Whether floodsub's partial view grows by the event's peer.
pub open spec fn adds_peer(event: NetworkEvent) -> Option<Seq<u8>> {
    match event {
        NetworkEvent::ConnectionEstablished { peer_id, num_established } => if num_established > 0 {
            Some(peer_id@)
        } else {
            None
        },
        _ => None,
    }
}

/// The result of handling `event` at time `now` with the table `m`.
pub open spec fn dispatch_result(
    event: NetworkEvent,
    m: Map<Seq<u8>, (u64, usize)>,
    now: u64,
    r: Result<Handled, AppError>,
) -> bool {
    match event {
        NetworkEvent::Behaviour(ProtocolEvent::Floodsub(FloodsubEvent::Message { source, data, .. })) => {
            if accepts(m, source@, now) {
                r matches Ok(Handled::Delivered { mechanism, source: s, data: d }) && mechanism
                    == Mechanism::Floodsub && s@ == source@ && d@ == data@
            } else {
                r matches Ok(Handled::RateLimited { mechanism, source: s }) && mechanism
                    == Mechanism::Floodsub && s@ == source@
            }
        },
        NetworkEvent::Behaviour(ProtocolEvent::Floodsub(_)) => r matches Err(
            AppError::Event(EventError::FloodsubEvent(e)),
        ) && e@ == "Unexpected Floodsub event"@,
        NetworkEvent::Behaviour(
            ProtocolEvent::Gossipsub(GossipsubEvent::Message { propagation_source, data, .. }),
        ) => {
            if accepts(m, propagation_source@, now) {
                r matches Ok(Handled::Delivered { mechanism, source: s, data: d }) && mechanism
                    == Mechanism::Gossipsub && s@ == propagation_source@ && d@ == data@
            } else {
                r matches Ok(Handled::RateLimited { mechanism, source: s }) && mechanism
                    == Mechanism::Gossipsub && s@ == propagation_source@
            }
        },
        NetworkEvent::Behaviour(ProtocolEvent::Gossipsub(_)) => r matches Err(
            AppError::Event(EventError::GossipsubEvent(e)),
        ) && e@ == "Unexpected Gossipsub event"@,
        NetworkEvent::NewListenAddr { .. } => r matches Ok(Handled::Logged),
        NetworkEvent::ConnectionEstablished { peer_id, num_established } => {
            if num_established == 0 {
                r matches Err(AppError::Network(NetworkError::Connection(p))) && p@ == peer_id@
            } else {
                r matches Ok(Handled::PeerAdded(p)) && p@ == peer_id@
            }
        },
        NetworkEvent::ConnectionClosed { cause, .. } => match cause {
            Some(c) => r matches Err(AppError::Network(NetworkError::ConnectionClose(e))) && e@
                == c@,
            None => r matches Ok(Handled::Logged),
        },
        NetworkEvent::IncomingConnection { .. } => r matches Ok(Handled::Logged),
        NetworkEvent::IncomingConnectionError { error, .. } => r matches Err(
            AppError::Network(NetworkError::IncomingConnection(e)),
        ) && e@ == error@,
        NetworkEvent::Dialing { .. } => r matches Ok(Handled::Logged),
        NetworkEvent::Other(name) => r matches Err(AppError::Event(EventError::UnhandledSwarm(n)))
            && n@ == name@,
    }
}

/// An event-handling result as an application result.
pub open spec fn as_app_result(r: Result<Handled, EventError>) -> Result<Handled, AppError> {
    match r {
        Ok(h) => Ok(h),
        Err(e) => Err(AppError::Event(e)),
    }
}

/// The same payload from the same peer, arriving once through floodsub and
/// once through gossipsub, is delivered twice, once per mechanism, when the
/// peer's window has room for two more messages: the dispatcher does not
/// merge the two.
pub proof fn lemma_dual_delivery(
    flood: NetworkEvent,
    gossip: NetworkEvent,
    m: Map<Seq<u8>, (u64, usize)>,
    now: u64,
    peer: Seq<u8>,
    payload: Seq<u8>,
    r1: Result<Handled, AppError>,
    r2: Result<Handled, AppError>,
)
    requires
        message_of(flood) == Some((Mechanism::Floodsub, payload)),
        message_of(gossip) == Some((Mechanism::Gossipsub, payload)),
        charged_peer(flood) == Some(peer),
        charged_peer(gossip) == Some(peer),
        !m.contains_key(peer) || elapsed(m[peer].0, now) > RATE_LIMIT_INTERVAL_MS || m[peer].1 + 2
            <= MAX_MESSAGES_PER_INTERVAL,
        dispatch_result(flood, m, now, r1),
        dispatch_result(gossip, limiter_after(flood, m, now), now, r2),
    ensures
        delivers(flood, m, now),
        delivers(gossip, limiter_after(flood, m, now), now),
        r1 matches Ok(Handled::Delivered { mechanism, data, .. }) && mechanism == Mechanism::Floodsub
            && data@ == payload,
        r2 matches Ok(Handled::Delivered { mechanism, data, .. }) && mechanism == Mechanism::Gossipsub
            && data@ == payload,
{
}

/// Gates one inbound message from `source` through the rate limiter.
fn gate_message(
    mechanism: Mechanism,
    source: PeerIdentifier,
    data: Vec<u8>,
    rate_limiter: &mut RateLimiter,
    now: u64,
) -> (r: Handled)
    requires
        old(rate_limiter).wf(),
    ensures
        final(rate_limiter).wf(),
        final(rate_limiter)@ == after_message(old(rate_limiter)@, source@, now),
        accepts(old(rate_limiter)@, source@, now) ==> (r matches Handled::Delivered {
            mechanism: m,
            source: s,
            data: d,
        } && m == mechanism && s@ == source@ && d@ == data@),
        !accepts(old(rate_limiter)@, source@, now) ==> (r matches Handled::RateLimited {
            mechanism: m,
            source: s,
        } && m == mechanism && s@ == source@),
{
    if rate_limiter.check_rate_limit_at(&source, now) {
        Handled::Delivered { mechanism, source, data }
    } else {
        Handled::RateLimited { mechanism, source }
    }
}

/// Handles a floodsub event: a message is gated by the rate limit, keyed
/// by its sender; any other floodsub event is unexpected.
fn handle_floodsub_event(event: FloodsubEvent, rate_limiter: &mut RateLimiter, now: u64) -> (r:
    Result<Handled, EventError>)
    requires
        old(rate_limiter).wf(),
    ensures
        final(rate_limiter).wf(),
        ({
            let e = NetworkEvent::Behaviour(ProtocolEvent::Floodsub(event));
            &&& final(rate_limiter)@ == limiter_after(e, old(rate_limiter)@, now)
            &&& dispatch_result(e, old(rate_limiter)@, now, as_app_result(r))
        }),
{
    match event {
        FloodsubEvent::Message { source, data, .. } => Ok(
            gate_message(Mechanism::Floodsub, source, data, rate_limiter, now),
        ),
        _ => Err(EventError::FloodsubEvent("Unexpected Floodsub event".to_owned())),
    }
}

/// Handles a gossipsub event: a message is gated by the rate limit, keyed
/// by the peer that propagated it to this node; any other gossipsub event is
/// unexpected.
fn handle_gossipsub_event(event: GossipsubEvent, rate_limiter: &mut RateLimiter, now: u64) -> (r:
    Result<Handled, EventError>)
    requires
        old(rate_limiter).wf(),
    ensures
        final(rate_limiter).wf(),
        ({
            let e = NetworkEvent::Behaviour(ProtocolEvent::Gossipsub(event));
            &&& final(rate_limiter)@ == limiter_after(e, old(rate_limiter)@, now)
            &&& dispatch_result(e, old(rate_limiter)@, now, as_app_result(r))
        }),
{
    match event {
        GossipsubEvent::Message { propagation_source, data, .. } => Ok(
            gate_message(Mechanism::Gossipsub, propagation_source, data, rate_limiter, now),
        ),
        _ => Err(EventError::GossipsubEvent("Unexpected Gossipsub event".to_owned())),
    }
}

/// Handles one network event at time `now` (milliseconds on the rate
/// limiter's clock).
///
/// An established connection adds its peer to floodsub's partial view; a
/// closed connection leaves the view as it is, so the view only grows.
pub fn handle_event_at(
    event: NetworkEvent,
    floodsub: &mut Floodsub,
    rate_limiter: &mut RateLimiter,
    now: u64,
) -> (r: Result<Handled, AppError>)
    requires
        old(rate_limiter).wf(),
    ensures
        final(rate_limiter).wf(),
        final(rate_limiter)@ == limiter_after(event, old(rate_limiter)@, now),
        dispatch_result(event, old(rate_limiter)@, now, r),
        match adds_peer(event) {
            Some(p) => flood_partial_view(*final(floodsub)) == flood_partial_view(*old(floodsub)).insert(p)
                && flood_topics(*final(floodsub)) == flood_topics(*old(floodsub)),
            None => *final(floodsub) == *old(floodsub),
        },
{
    match event {
        NetworkEvent::Behaviour(ProtocolEvent::Floodsub(e)) => match handle_floodsub_event(
            e,
            rate_limiter,
            now,
        ) {
            Ok(h) => Ok(h),
            Err(x) => Err(AppError::Event(x)),
        },
        NetworkEvent::Behaviour(ProtocolEvent::Gossipsub(e)) => match handle_gossipsub_event(
            e,
            rate_limiter,
            now,
        ) {
            Ok(h) => Ok(h),
            Err(x) => Err(AppError::Event(x)),
        },
        NetworkEvent::NewListenAddr { .. } => Ok(Handled::Logged),
        NetworkEvent::ConnectionEstablished { peer_id, num_established } => {
            if num_established == 0 {
                Err(AppError::Network(NetworkError::Connection(peer_id)))
            } else {
                floodsub_add_node(floodsub, &peer_id);
                Ok(Handled::PeerAdded(peer_id))
            }
        },
        NetworkEvent::ConnectionClosed { cause, .. } => match cause {
            Some(c) => Err(AppError::Network(NetworkError::ConnectionClose(c))),
            None => Ok(Handled::Logged),
        },
        NetworkEvent::IncomingConnection { .. } => Ok(Handled::Logged),
        NetworkEvent::IncomingConnectionError { error, .. } => Err(
            AppError::Network(NetworkError::IncomingConnection(error)),
        ),
        NetworkEvent::Dialing { .. } => Ok(Handled::Logged),
        NetworkEvent::Other(name) => Err(AppError::Event(EventError::UnhandledSwarm(name))),
    }
}

/// Handles one network event now, on the rate limiter's clock.
pub fn handle_event(event: NetworkEvent, floodsub: &mut Floodsub, rate_limiter: &mut RateLimiter) -> (r:
    Result<Handled, AppError>)
    requires
        old(rate_limiter).wf(),
    ensures
        final(rate_limiter).wf(),
        exists|now: u64|
            final(rate_limiter)@ == limiter_after(event, old(rate_limiter)@, now) && dispatch_result(
                event,
                old(rate_limiter)@,
                now,
                r,
            ),
        match adds_peer(event) {
            Some(p) => flood_partial_view(*final(floodsub)) == flood_partial_view(*old(floodsub)).insert(p)
                && flood_topics(*final(floodsub)) == flood_topics(*old(floodsub)),
            None => *final(floodsub) == *old(floodsub),
        },
{
    let now = rate_limiter.now_millis();
    handle_event_at(event, floodsub, rate_limiter, now)
}

} // verus!
