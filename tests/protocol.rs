use libp2p::{gossipsub, identity, PeerId};
use p2p_chat::error::{Mechanism, ProtocolError, PublishFailure};
use p2p_chat::protocol::{publish_outcome, Protocols};

fn create_test_protocols() -> Protocols {
    let keypair = identity::Keypair::generate_ed25519();
    let peer_id = PeerId::from(keypair.public());
    Protocols::new(peer_id, keypair).expect("Failed to create Protocols")
}

#[test]
fn test_procotols_new() {
    let protocols = create_test_protocols();
    assert!(protocols.gossipsub.topics().next().is_none());
}

#[test]
fn test_subscribe() {
    let mut protocols = create_test_protocols();
    let topic = "test-topic";

    assert!(protocols.subscribe(topic).is_ok());

    let gossipsub_topic = gossipsub::IdentTopic::new(topic);
    assert!(protocols
        .gossipsub
        .topics()
        .any(|t| t == &gossipsub_topic.hash()));
}

#[test]
fn test_publish() {
    let mut protocols = create_test_protocols();
    let topic = "test-topic";
    let data = b"test-message";

    protocols.subscribe(topic).expect("Failed to subscribe");

    match protocols.publish(topic, data) {
        Ok(_) => println!("Message published successfully"),
        Err(e) => match e {
            ProtocolError::Publish(publish_error) => {
                assert!(matches!(publish_error, PublishFailure::InsufficientPeers));
            }
            _ => panic!("Unexpected error: {:?}", e),
        },
    }
}

#[test]
fn subscribe_twice_is_refused_by_floodsub_and_keeps_both_subscriptions() {
    let mut protocols = create_test_protocols();
    assert!(protocols.subscribe("chat").is_ok());
    match protocols.subscribe("chat") {
        Err(ProtocolError::Subscription(mechanism, topic)) => {
            assert_eq!(mechanism, Mechanism::Floodsub);
            assert_eq!(topic, "chat");
        }
        other => panic!("unexpected result: {:?}", other),
    }
    let hashes: Vec<_> = protocols.gossipsub.topics().cloned().collect();
    assert_eq!(hashes, vec![gossipsub::IdentTopic::new("chat").hash()]);
}

#[test]
fn subscribe_to_two_topics() {
    let mut protocols = create_test_protocols();
    assert!(protocols.subscribe("a").is_ok());
    assert!(protocols.subscribe("b").is_ok());
    assert_eq!(protocols.gossipsub.topics().count(), 2);
}

#[test]
fn publish_on_empty_topic_is_invalid_input() {
    let mut protocols = create_test_protocols();
    protocols.subscribe("chat").unwrap();
    match protocols.publish("", b"payload") {
        Err(ProtocolError::InvalidInput(message)) => assert_eq!(message, "topic cannot be empty"),
        other => panic!("unexpected result: {:?}", other),
    }
    assert_eq!(protocols.gossipsub.topics().count(), 1);
}

#[test]
fn publish_without_peers_reports_insufficient_peers() {
    let mut protocols = create_test_protocols();
    protocols.subscribe("chat").unwrap();
    match protocols.publish("chat", b"hello") {
        Err(ProtocolError::Publish(PublishFailure::InsufficientPeers)) => {}
        other => panic!("unexpected result: {:?}", other),
    }
}

#[test]
fn unsubscribe_keeps_subscriptions() {
    let mut protocols = create_test_protocols();
    protocols.subscribe("chat").unwrap();
    assert!(protocols.unsubscribe("chat").is_ok());
    assert_eq!(protocols.gossipsub.topics().count(), 1);
}

#[test]
fn publish_outcome_follows_the_gossipsub_send() {
    assert!(publish_outcome(Ok(())).is_ok());
    match publish_outcome(Err(PublishFailure::MessageTooLarge)) {
        Err(ProtocolError::Publish(PublishFailure::MessageTooLarge)) => {}
        other => panic!("unexpected result: {:?}", other),
    }
}
