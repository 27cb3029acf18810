//! The two propagation mechanisms of libp2p that the router drives, floodsub
//! and gossipsub, with the contracts of the calls made into them.
//!
//! What the router needs to know of each mechanism's state is named here:
//! the topics floodsub is subscribed to and its partial view (the peers it
//! propagates to, by their byte encoding), and the topics gossipsub keeps a
//! mesh for.
use crate::error::PublishFailure;
use crate::peer::PeerIdentifier;
use libp2p::floodsub::{Floodsub, Topic};
use libp2p::gossipsub;
use libp2p::gossipsub::Config as MeshConfig;
use libp2p::identity::Keypair;
use libp2p::{Multiaddr, PeerId};
use vstd::prelude::*;

verus! {

#[verifier::external_type_specification]
#[verifier::external_body]
pub struct ExFloodsub(Floodsub);

#[verifier::external_type_specification]
#[verifier::external_body]
#[verifier::reject_recursive_types(D)]
#[verifier::reject_recursive_types(F)]
pub struct ExGossipsub<D, F>(gossipsub::Behaviour<D, F>);

#[verifier::external_type_specification]
#[verifier::external_body]
pub struct ExIdentityTransform(gossipsub::IdentityTransform);

#[verifier::external_type_specification]
#[verifier::external_body]
pub struct ExAllowAllSubscriptionFilter(gossipsub::AllowAllSubscriptionFilter);

#[verifier::external_type_specification]
#[verifier::external_body]
pub struct ExGossipsubConfig(MeshConfig);

#[verifier::external_type_specification]
#[verifier::external_body]
pub struct ExPublishError(gossipsub::PublishError);

#[verifier::external_type_specification]
#[verifier::external_body]
pub struct ExSubscriptionError(gossipsub::SubscriptionError);

#[verifier::external_type_specification]
#[verifier::external_body]
pub struct ExKeypair(Keypair);

#[verifier::external_type_specification]
#[verifier::external_body]
pub struct ExMultiaddr(Multiaddr);

/// The topics a floodsub behaviour is subscribed to.
pub uninterp spec fn flood_topics(f: Floodsub) -> Set<Seq<char>>;

/// The partial view of a floodsub behaviour: the peers it propagates to.
pub uninterp spec fn flood_partial_view(f: Floodsub) -> Set<Seq<u8>>;

/// The topics a gossipsub behaviour keeps a mesh for, that is, is
/// subscribed to.
pub uninterp spec fn mesh_topics(g: gossipsub::Behaviour) -> Set<Seq<char>>;

/// The messages this node has published through floodsub, as topic and
/// payload, in order: those `Floodsub::publish` accepted because the node
/// is subscribed to the topic, each then recorded as received and queued for
/// the connected peers of the partial view that subscribe to the topic.
pub uninterp spec fn flood_outbox(f: Floodsub) -> Seq<(Seq<char>, Seq<u8>)>;

/// The mesh degree a gossipsub behaviour was configured with (`mesh_n`).
pub uninterp spec fn mesh_degree(g: gossipsub::Behaviour) -> nat;

/// Whether a gossipsub behaviour validates strictly (accepts only messages
/// signed by their author) and signs what it publishes.
pub uninterp spec fn mesh_signs_strictly(g: gossipsub::Behaviour) -> bool;

/// The messages this node has published through gossipsub, as topic and
/// payload, in order: those `Behaviour::publish` accepted and sent to the
/// topic's recipient peers.
pub uninterp spec fn mesh_outbox(g: gossipsub::Behaviour) -> Seq<(Seq<char>, Seq<u8>)>;

/// Whether a text is a well-formed multiaddress.
pub uninterp spec fn is_multiaddr(s: Seq<char>) -> bool;

/// Relies on `Floodsub::new`: a behaviour with no subscription, an empty
/// partial view, and nothing published.
#[verifier::external_body]
pub(crate) fn floodsub_new(local: PeerId) -> (r: Floodsub)
    ensures
        flood_topics(r) == Set::<Seq<char>>::empty(),
        flood_partial_view(r) == Set::<Seq<u8>>::empty(),
        flood_outbox(r) == Seq::<(Seq<char>, Seq<u8>)>::empty(),
{
    Floodsub::new(local)
}

/// Relies on `Floodsub::subscribe`: true when the topic was not yet
/// subscribed; the topic is subscribed afterwards.
#[verifier::external_body]
pub(crate) fn floodsub_subscribe(f: &mut Floodsub, topic: &str) -> (r: bool)
    ensures
        r == !flood_topics(*old(f)).contains(topic@),
        flood_topics(*final(f)) == flood_topics(*old(f)).insert(topic@),
        flood_partial_view(*final(f)) == flood_partial_view(*old(f)),
        flood_outbox(*final(f)) == flood_outbox(*old(f)),
{
    f.subscribe(Topic::new(topic))
}

/// Relies on `Floodsub::publish`: when the node is subscribed to the
/// topic, the message is published (queued for the peers of the partial view
/// subscribed to the topic); otherwise nothing is sent. Subscriptions and
/// partial view stay.
#[verifier::external_body]
pub(crate) fn floodsub_publish(f: &mut Floodsub, topic: &str, data: &[u8])
    ensures
        flood_outbox(*final(f)) == if flood_topics(*old(f)).contains(topic@) {
            flood_outbox(*old(f)).push((topic@, data@))
        } else {
            flood_outbox(*old(f))
        },
        flood_topics(*final(f)) == flood_topics(*old(f)),
        flood_partial_view(*final(f)) == flood_partial_view(*old(f)),
{
    f.publish(Topic::new(topic), data.to_vec())
}

/// Relies on `Floodsub::add_node_to_partial_view`: the peer joins the
/// partial view; subscriptions stay.
#[verifier::external_body]
pub(crate) fn floodsub_add_node(f: &mut Floodsub, peer: &PeerIdentifier)
    ensures
        flood_partial_view(*final(f)) == flood_partial_view(*old(f)).insert(peer@),
        flood_topics(*final(f)) == flood_topics(*old(f)),
        flood_outbox(*final(f)) == flood_outbox(*old(f)),
{
    f.add_node_to_partial_view(peer.peer_id())
}

/// A gossipsub configuration with the default parameters and strict
/// validation. Only `strict_gossipsub_config` makes one.
pub struct StrictConfig {
    config: MeshConfig,
}

/// Relies on `gossipsub::Config::default`: the default parameters, which
/// `ConfigBuilder::build` accepts, with `ValidationMode::Strict` (the default
/// of `ProtocolConfig`): only messages signed by their author are accepted.
#[verifier::external_body]
pub(crate) fn strict_gossipsub_config() -> (r: StrictConfig) {
    StrictConfig { config: MeshConfig::default() }
}

/// Relies on `gossipsub::Behaviour::new`, with messages signed by `key`:
/// with strict validation and signing, `validate_config` accepts, so the
/// behaviour is built, with no mesh, nothing published, and the default mesh
/// degree of 6.
#[verifier::external_body]
pub(crate) fn gossipsub_new_signed(key: Keypair, config: StrictConfig) -> (r: Result<
    gossipsub::Behaviour,
    String,
>)
    ensures
        r is Ok,
        r matches Ok(g) ==> mesh_topics(g) == Set::<Seq<char>>::empty() && mesh_outbox(g)
            == Seq::<(Seq<char>, Seq<u8>)>::empty() && mesh_degree(g) == 6 && mesh_signs_strictly(
            g,
        ),
{
    gossipsub::Behaviour::new(gossipsub::MessageAuthenticity::Signed(key), config.config).map_err(
        |e| e.to_string(),
    )
}

/// Relies on `gossipsub::Behaviour::subscribe` with the allow-all
/// subscription filter: `Ok(true)` when the topic had no mesh yet,
/// `Ok(false)` when it had. `join` then makes the topic's mesh entry
/// whenever the mesh degree is positive (and also when the fanout held the
/// topic). Configuration and published messages stay.
#[verifier::external_body]
pub(crate) fn gossipsub_subscribe(g: &mut gossipsub::Behaviour, topic: &str) -> (r: Result<
    bool,
    gossipsub::SubscriptionError,
>)
    ensures
        r == Ok::<bool, gossipsub::SubscriptionError>(!mesh_topics(*old(g)).contains(topic@)),
        mesh_degree(*old(g)) > 0 ==> mesh_topics(*final(g)) == mesh_topics(*old(g)).insert(topic@),
        mesh_degree(*final(g)) == mesh_degree(*old(g)),
        mesh_signs_strictly(*final(g)) == mesh_signs_strictly(*old(g)),
        mesh_outbox(*final(g)) == mesh_outbox(*old(g)),
{
    g.subscribe(&gossipsub::IdentTopic::new(topic))
}

/// Relies on `gossipsub::Behaviour::publish`: the message (the identity
/// transform leaves the payload as it is) is sent to the mesh or fanout
/// peers of the topic, or refused (for instance when no peer is known for
/// the topic), and then nothing is sent. The set of meshes and the
/// configuration stay.
#[verifier::external_body]
pub(crate) fn gossipsub_publish(g: &mut gossipsub::Behaviour, topic: &str, data: &[u8]) -> (r: Result<
    (),
    gossipsub::PublishError,
>)
    ensures
        mesh_topics(*final(g)) == mesh_topics(*old(g)),
        mesh_degree(*final(g)) == mesh_degree(*old(g)),
        mesh_signs_strictly(*final(g)) == mesh_signs_strictly(*old(g)),
        r is Ok ==> mesh_outbox(*final(g)) == mesh_outbox(*old(g)).push((topic@, data@)),
        r is Err ==> mesh_outbox(*final(g)) == mesh_outbox(*old(g)),
{
    g.publish(gossipsub::IdentTopic::new(topic), data.to_vec()).map(|_| ())
}

/// Relies on the variants of `gossipsub::PublishError`, one for one.
#[verifier::external_body]
pub(crate) fn publish_failure_of(e: gossipsub::PublishError) -> (r: PublishFailure) {
    match e {
        gossipsub::PublishError::Duplicate => PublishFailure::Duplicate,
        gossipsub::PublishError::SigningError(s) => PublishFailure::SigningError(s.to_string()),
        gossipsub::PublishError::InsufficientPeers => PublishFailure::InsufficientPeers,
        gossipsub::PublishError::MessageTooLarge => PublishFailure::MessageTooLarge,
        gossipsub::PublishError::TransformFailed(io) => PublishFailure::TransformFailed(io.to_string()),
    }
}

/// Relies on `Multiaddr`'s `FromStr`: the address when the text is a
/// well-formed multiaddress.
#[verifier::external_body]
pub(crate) fn parse_multiaddr(s: &str) -> (r: Option<Multiaddr>)
    ensures
        r.is_some() == is_multiaddr(s@),
{
    s.parse::<Multiaddr>().ok()
}

} // verus!
