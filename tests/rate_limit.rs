use libp2p::PeerId;
use p2p_chat::peer::PeerIdentifier;
use p2p_chat::rate_limit::{RateLimiter, MAX_MESSAGES_PER_INTERVAL, RATE_LIMIT_INTERVAL_MS};

fn random_peer() -> PeerIdentifier {
    PeerIdentifier::new(PeerId::random())
}

#[test]
fn test_rate_limiting() {
    let mut rate_limiter = RateLimiter::new();
    let peer_id = random_peer();

    for _ in 0..MAX_MESSAGES_PER_INTERVAL {
        assert!(rate_limiter.check_rate_limit(&peer_id));
    }

    assert!(!rate_limiter.check_rate_limit(&peer_id));
}

#[test]
fn limits_are_sixty_seconds_and_one_hundred_messages() {
    assert_eq!(RATE_LIMIT_INTERVAL_MS, 60_000);
    assert_eq!(MAX_MESSAGES_PER_INTERVAL, 100);
}

#[test]
fn window_boundary_with_injected_clock() {
    let mut limiter = RateLimiter::new();
    let peer = random_peer();
    for i in 0..100u64 {
        assert!(limiter.check_rate_limit_at(&peer, 1_000 + i));
    }
    assert!(!limiter.check_rate_limit_at(&peer, 1_500));
    // Exactly one interval after the window started is still inside it.
    assert!(!limiter.check_rate_limit_at(&peer, 61_000));
}

#[test]
fn window_resets_after_the_interval() {
    let mut limiter = RateLimiter::new();
    let peer = random_peer();
    for _ in 0..101 {
        limiter.check_rate_limit_at(&peer, 0);
    }
    assert!(!limiter.check_rate_limit_at(&peer, 60_000));
    assert!(limiter.check_rate_limit_at(&peer, 60_001));
    // The count restarted at one: 99 more fit in the new window.
    for _ in 0..99 {
        assert!(limiter.check_rate_limit_at(&peer, 60_002));
    }
    assert!(!limiter.check_rate_limit_at(&peer, 60_003));
}

#[test]
fn unseen_peer_is_accepted_even_when_others_are_limited() {
    let mut limiter = RateLimiter::new();
    let busy = random_peer();
    for _ in 0..150 {
        limiter.check_rate_limit_at(&busy, 5);
    }
    assert!(!limiter.check_rate_limit_at(&busy, 5));
    let fresh = random_peer();
    assert!(limiter.check_rate_limit_at(&fresh, 5));
}

#[test]
fn earlier_time_counts_as_same_window() {
    let mut limiter = RateLimiter::new();
    let peer = random_peer();
    for _ in 0..100 {
        assert!(limiter.check_rate_limit_at(&peer, 100_000));
    }
    assert!(!limiter.check_rate_limit_at(&peer, 10));
}

#[test]
fn peer_identifier_holds_the_peer_id_bytes() {
    let id = PeerId::random();
    let peer = PeerIdentifier::new(id);
    assert_eq!(peer.as_bytes(), id.to_bytes().as_slice());
    assert_eq!(peer.peer_id(), id);
    assert!(!peer.as_bytes().is_empty());
    let other = PeerIdentifier::new(PeerId::random());
    assert!(!peer.same_peer(&other));
    assert!(peer.same_peer(&peer.duplicate()));
    assert_eq!(peer.to_bytes(), id.to_bytes());
}
