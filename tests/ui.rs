use libp2p::{identity, PeerId};
use p2p_chat::config::Config;
use p2p_chat::error::{NetworkError, ProtocolError, PublishFailure};
use p2p_chat::network::{create_protocols, listen_address};
use p2p_chat::ui::{handle_user_input, parse_command, word_spans, Command, UserAction};

#[test]
fn connect_with_one_address_dials() {
    match parse_command("/connect /ip4/127.0.0.1/tcp/4001") {
        Command::Dial(a) => assert_eq!(a.to_string(), "/ip4/127.0.0.1/tcp/4001"),
        other => panic!("unexpected command: {:?}", other),
    }
    match parse_command("/connect\t /ip4/10.0.0.1/tcp/1 ") {
        Command::Dial(a) => assert_eq!(a.to_string(), "/ip4/10.0.0.1/tcp/1"),
        other => panic!("unexpected command: {:?}", other),
    }
}

#[test]
fn connect_with_a_bad_address_is_reported() {
    match parse_command("/connect not-an-address") {
        Command::InvalidAddress(a) => assert_eq!(a, "not-an-address"),
        other => panic!("unexpected command: {:?}", other),
    }
}

#[test]
fn connect_with_wrong_argument_count_is_usage() {
    assert!(matches!(parse_command("/connect"), Command::Usage));
    assert!(matches!(parse_command("/connect a b"), Command::Usage));
    assert!(matches!(parse_command("/connect "), Command::Usage));
}

#[test]
fn other_lines_are_published_verbatim() {
    match parse_command("  hello world ") {
        Command::Publish(t) => assert_eq!(t, "  hello world "),
        other => panic!("unexpected command: {:?}", other),
    }
    match parse_command("/connectx /ip4/127.0.0.1/tcp/1") {
        Command::Publish(t) => assert_eq!(t, "/connectx /ip4/127.0.0.1/tcp/1"),
        other => panic!("unexpected command: {:?}", other),
    }
    match parse_command("/conn x") {
        Command::Publish(t) => assert_eq!(t, "/conn x"),
        other => panic!("unexpected command: {:?}", other),
    }
    assert!(matches!(parse_command(""), Command::Empty));
}

#[test]
fn words_split_on_unicode_space() {
    assert_eq!(word_spans("  ab  c "), vec![(2, 4), (6, 7)]);
    assert_eq!(word_spans("é\u{3000}ü"), vec![(0, 1), (2, 3)]);
    assert_eq!(word_spans(""), vec![]);
}

#[test]
fn user_line_is_published_on_the_topic() {
    let keypair = identity::Keypair::generate_ed25519();
    let peer_id = PeerId::from(keypair.public());
    let mut p = create_protocols(keypair, peer_id, "chat").unwrap();
    match handle_user_input("hello", &mut p.floodsub, &mut p.gossipsub, "chat") {
        UserAction::PublishFailed(ProtocolError::Publish(PublishFailure::InsufficientPeers)) => {}
        other => panic!("unexpected action: {:?}", other),
    }
    match handle_user_input("hello", &mut p.floodsub, &mut p.gossipsub, "") {
        UserAction::PublishFailed(ProtocolError::InvalidInput(_)) => {}
        other => panic!("unexpected action: {:?}", other),
    }
    assert!(matches!(
        handle_user_input("", &mut p.floodsub, &mut p.gossipsub, "chat"),
        UserAction::Ignored
    ));
    assert!(matches!(
        handle_user_input("/connect /ip4/127.0.0.1/tcp/1", &mut p.floodsub, &mut p.gossipsub, "chat"),
        UserAction::Dial(_)
    ));
}

#[test]
fn protocols_for_a_node_are_subscribed_to_its_topic() {
    let keypair = identity::Keypair::generate_ed25519();
    let peer_id = PeerId::from(keypair.public());
    let p = create_protocols(keypair, peer_id, "test-topic").unwrap();
    assert_eq!(p.gossipsub.topics().count(), 1);
}

#[test]
fn listen_address_is_any_interface() {
    let a = listen_address().unwrap();
    assert_eq!(a.to_string(), "/ip4/0.0.0.0/tcp/0");
    let e = NetworkError::AddressParse("x".to_string());
    assert!(matches!(e, NetworkError::AddressParse(_)));
}

#[test]
fn log_level_defaults_to_info() {
    assert_eq!(Config::new(None).log_level, "info");
    assert_eq!(Config::new(Some("debug".to_string())).log_level, "debug");
}
