use libp2p::{identity, PeerId};
use p2p_chat::error::{AppError, EventError, Mechanism, NetworkError};
use p2p_chat::event::{handle_event, handle_event_at, Handled, NetworkEvent};
use p2p_chat::peer::PeerIdentifier;
use p2p_chat::protocol::{FloodsubEvent, GossipsubEvent, ProtocolEvent, Protocols};
use p2p_chat::rate_limit::RateLimiter;

fn protocols() -> Protocols {
    let keypair = identity::Keypair::generate_ed25519();
    let peer_id = PeerId::from(keypair.public());
    Protocols::new(peer_id, keypair).unwrap()
}

fn flood_message(source: &PeerIdentifier, data: &[u8]) -> NetworkEvent {
    NetworkEvent::Behaviour(ProtocolEvent::Floodsub(FloodsubEvent::Message {
        source: source.duplicate(),
        data: data.to_vec(),
        topics: vec!["chat".to_string()],
    }))
}

fn gossip_message(source: &PeerIdentifier, data: &[u8]) -> NetworkEvent {
    NetworkEvent::Behaviour(ProtocolEvent::Gossipsub(GossipsubEvent::Message {
        propagation_source: source.duplicate(),
        source: None,
        message_id: "id".to_string(),
        data: data.to_vec(),
    }))
}

#[test]
fn floodsub_message_is_delivered() {
    let mut p = protocols();
    let mut limiter = RateLimiter::new();
    let peer = PeerIdentifier::new(PeerId::random());
    match handle_event_at(flood_message(&peer, b"hi"), &mut p.floodsub, &mut limiter, 0) {
        Ok(Handled::Delivered { mechanism, source, data }) => {
            assert_eq!(mechanism, Mechanism::Floodsub);
            assert!(source.same_peer(&peer));
            assert_eq!(data, b"hi".to_vec());
        }
        other => panic!("unexpected result: {:?}", other),
    }
}

#[test]
fn same_payload_through_both_mechanisms_is_delivered_twice() {
    let mut p = protocols();
    let mut limiter = RateLimiter::new();
    let peer = PeerIdentifier::new(PeerId::random());
    let first = handle_event_at(flood_message(&peer, b"x"), &mut p.floodsub, &mut limiter, 7);
    let second = handle_event_at(gossip_message(&peer, b"x"), &mut p.floodsub, &mut limiter, 7);
    assert!(matches!(
        first,
        Ok(Handled::Delivered { mechanism: Mechanism::Floodsub, .. })
    ));
    assert!(matches!(
        second,
        Ok(Handled::Delivered { mechanism: Mechanism::Gossipsub, .. })
    ));
}

#[test]
fn gossipsub_messages_are_limited_by_propagation_source() {
    let mut p = protocols();
    let mut limiter = RateLimiter::new();
    let relay = PeerIdentifier::new(PeerId::random());
    for _ in 0..100 {
        let r = handle_event_at(gossip_message(&relay, b"m"), &mut p.floodsub, &mut limiter, 0);
        assert!(matches!(r, Ok(Handled::Delivered { .. })));
    }
    match handle_event_at(gossip_message(&relay, b"m"), &mut p.floodsub, &mut limiter, 0) {
        Ok(Handled::RateLimited { mechanism, source }) => {
            assert_eq!(mechanism, Mechanism::Gossipsub);
            assert!(source.same_peer(&relay));
        }
        other => panic!("unexpected result: {:?}", other),
    }
    // A floodsub message from the same peer shares the count.
    let r = handle_event_at(flood_message(&relay, b"m"), &mut p.floodsub, &mut limiter, 0);
    assert!(matches!(
        r,
        Ok(Handled::RateLimited { mechanism: Mechanism::Floodsub, .. })
    ));
}

#[test]
fn connection_with_zero_established_is_an_error() {
    let mut p = protocols();
    let mut limiter = RateLimiter::new();
    let peer = PeerIdentifier::new(PeerId::random());
    let event = NetworkEvent::ConnectionEstablished { peer_id: peer.duplicate(), num_established: 0 };
    match handle_event_at(event, &mut p.floodsub, &mut limiter, 0) {
        Err(AppError::Network(NetworkError::Connection(p))) => assert!(p.same_peer(&peer)),
        other => panic!("unexpected result: {:?}", other),
    }
}

#[test]
fn connection_established_adds_the_peer() {
    let mut p = protocols();
    let mut limiter = RateLimiter::new();
    let peer = PeerIdentifier::new(PeerId::random());
    let event = NetworkEvent::ConnectionEstablished { peer_id: peer.duplicate(), num_established: 1 };
    match handle_event_at(event, &mut p.floodsub, &mut limiter, 0) {
        Ok(Handled::PeerAdded(added)) => assert!(added.same_peer(&peer)),
        other => panic!("unexpected result: {:?}", other),
    }
}

#[test]
fn connection_closed_with_cause_is_an_error() {
    let mut p = protocols();
    let mut limiter = RateLimiter::new();
    let peer = PeerIdentifier::new(PeerId::random());
    let event = NetworkEvent::ConnectionClosed {
        peer_id: peer.duplicate(),
        num_established: 0,
        cause: Some("reset".to_string()),
    };
    match handle_event_at(event, &mut p.floodsub, &mut limiter, 0) {
        Err(AppError::Network(NetworkError::ConnectionClose(c))) => assert_eq!(c, "reset"),
        other => panic!("unexpected result: {:?}", other),
    }
    let event = NetworkEvent::ConnectionClosed { peer_id: peer, num_established: 0, cause: None };
    assert!(matches!(
        handle_event(event, &mut p.floodsub, &mut limiter),
        Ok(Handled::Logged)
    ));
}

#[test]
fn informational_events_are_logged() {
    let mut p = protocols();
    let mut limiter = RateLimiter::new();
    let events = vec![
        NetworkEvent::NewListenAddr { listener_id: "l".to_string(), address: "/ip4/127.0.0.1/tcp/1".to_string() },
        NetworkEvent::IncomingConnection { local_addr: "a".to_string(), send_back_addr: "b".to_string() },
        NetworkEvent::Dialing { target: None },
    ];
    for e in events {
        assert!(matches!(
            handle_event_at(e, &mut p.floodsub, &mut limiter, 0),
            Ok(Handled::Logged)
        ));
    }
}

#[test]
fn incoming_connection_error_is_an_error() {
    let mut p = protocols();
    let mut limiter = RateLimiter::new();
    let event = NetworkEvent::IncomingConnectionError {
        local_addr: "a".to_string(),
        send_back_addr: "b".to_string(),
        error: "denied".to_string(),
    };
    match handle_event_at(event, &mut p.floodsub, &mut limiter, 0) {
        Err(AppError::Network(NetworkError::IncomingConnection(e))) => assert_eq!(e, "denied"),
        other => panic!("unexpected result: {:?}", other),
    }
}

#[test]
fn unexpected_mechanism_events_are_errors() {
    let mut p = protocols();
    let mut limiter = RateLimiter::new();
    let peer = PeerIdentifier::new(PeerId::random());
    let flood = NetworkEvent::Behaviour(ProtocolEvent::Floodsub(FloodsubEvent::Subscribed {
        peer_id: peer.duplicate(),
        topic: "chat".to_string(),
    }));
    assert!(matches!(
        handle_event_at(flood, &mut p.floodsub, &mut limiter, 0),
        Err(AppError::Event(EventError::FloodsubEvent(ref m))) if m == "Unexpected Floodsub event"
    ));
    let gossip = NetworkEvent::Behaviour(ProtocolEvent::Gossipsub(
        GossipsubEvent::GossipsubNotSupported { peer_id: peer },
    ));
    assert!(matches!(
        handle_event_at(gossip, &mut p.floodsub, &mut limiter, 0),
        Err(AppError::Event(EventError::GossipsubEvent(ref m))) if m == "Unexpected Gossipsub event"
    ));
}

#[test]
fn unknown_swarm_event_is_unhandled() {
    let mut p = protocols();
    let mut limiter = RateLimiter::new();
    match handle_event_at(NetworkEvent::Other("ExpiredListenAddr".to_string()), &mut p.floodsub, &mut limiter, 0) {
        Err(AppError::Event(EventError::UnhandledSwarm(name))) => assert_eq!(name, "ExpiredListenAddr"),
        other => panic!("unexpected result: {:?}", other),
    }
}
