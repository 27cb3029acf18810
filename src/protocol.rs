//! The protocol router: floodsub and gossipsub behind one subscribe/publish
//! surface, and the events the two mechanisms deliver.
//!
//! Neither operation is atomic across the mechanisms. A subscription that
//! floodsub accepts stays in place when gossipsub then refuses; a publish
//! hands the payload to floodsub before gossipsub, which may refuse it.
use crate::error::{Mechanism, ProtocolError, PublishFailure};
use crate::mechanisms::{
    flood_outbox, flood_partial_view, flood_topics, floodsub_new, floodsub_publish,
    floodsub_subscribe, gossipsub_new_signed, gossipsub_publish, gossipsub_subscribe, mesh_degree,
    mesh_outbox, mesh_signs_strictly, mesh_topics, publish_failure_of, strict_gossipsub_config,
};
use crate::peer::PeerIdentifier;
use libp2p::floodsub::Floodsub;
use libp2p::gossipsub;
use libp2p::identity::Keypair;
use libp2p::PeerId;
use vstd::prelude::*;

verus! {

/// The two propagation mechanisms of a node.
pub struct Protocols {
    pub floodsub: Floodsub,
    pub gossipsub: gossipsub::Behaviour,
}

/// What subscribing to `topic` does, from the mechanisms `f0` and `g0` to
/// `f1` and `g1` with result `r`. Floodsub is asked first. When it was
/// subscribed already it refuses, and gossipsub is left as it was; otherwise
/// gossipsub is asked too, and it keeps a mesh for the topic when its mesh
/// degree is positive. Neither mechanism publishes anything.
pub open spec fn subscribe_outcome(
    f0: Floodsub,
    g0: gossipsub::Behaviour,
    f1: Floodsub,
    g1: gossipsub::Behaviour,
    topic: Seq<char>,
    r: Result<(), ProtocolError>,
) -> bool {
    &&& flood_topics(f1) == flood_topics(f0).insert(topic)
    &&& flood_partial_view(f1) == flood_partial_view(f0)
    &&& flood_outbox(f1) == flood_outbox(f0)
    &&& mesh_degree(g1) == mesh_degree(g0)
    &&& mesh_signs_strictly(g1) == mesh_signs_strictly(g0)
    &&& mesh_outbox(g1) == mesh_outbox(g0)
    &&& if flood_topics(f0).contains(topic) {
        &&& g1 == g0
        &&& r matches Err(ProtocolError::Subscription(m, t)) && m == Mechanism::Floodsub && t@
            == topic
    } else {
        &&& r is Ok
        &&& mesh_degree(g0) > 0 ==> mesh_topics(g1) == mesh_topics(g0).insert(topic)
    }
}

/// Subscribes both mechanisms to `topic`: floodsub first, and gossipsub only
/// when floodsub accepted.
pub fn subscribe_both(floodsub: &mut Floodsub, gossipsub: &mut gossipsub::Behaviour, topic: &str) -> (r:
    Result<(), ProtocolError>)
    ensures
        subscribe_outcome(*old(floodsub), *old(gossipsub), *final(floodsub), *final(gossipsub), topic@, r),
{
    if !floodsub_subscribe(floodsub, topic) {
        return Err(ProtocolError::Subscription(Mechanism::Floodsub, topic.to_owned()));
    }
    match gossipsub_subscribe(gossipsub, topic) {
        Ok(_) => Ok(()),
        Err(_) => Err(ProtocolError::Subscription(Mechanism::Gossipsub, topic.to_owned())),
    }
}

/// What publishing `data` on `topic` does, from the mechanisms `f0` and
/// `g0` to `f1` and `g1` with result `r`. An empty topic is refused and
/// neither mechanism is touched. Otherwise floodsub publishes the message
/// when it is subscribed to the topic, and gossipsub is handed it too; the
/// result is gossipsub's: `Ok` exactly when gossipsub sent the message. No
/// subscription, partial view or configuration changes.
pub open spec fn publish_effect(
    f0: Floodsub,
    g0: gossipsub::Behaviour,
    f1: Floodsub,
    g1: gossipsub::Behaviour,
    topic: Seq<char>,
    data: Seq<u8>,
    r: Result<(), ProtocolError>,
) -> bool {
    &&& flood_topics(f1) == flood_topics(f0)
    &&& flood_partial_view(f1) == flood_partial_view(f0)
    &&& mesh_topics(g1) == mesh_topics(g0)
    &&& mesh_degree(g1) == mesh_degree(g0)
    &&& mesh_signs_strictly(g1) == mesh_signs_strictly(g0)
    &&& if topic.len() == 0 {
        &&& r matches Err(ProtocolError::InvalidInput(_))
        &&& f1 == f0
        &&& g1 == g0
    } else {
        &&& flood_outbox(f1) == if flood_topics(f0).contains(topic) {
            flood_outbox(f0).push((topic, data))
        } else {
            flood_outbox(f0)
        }
        &&& r is Ok || (r matches Err(ProtocolError::Publish(_)))
        &&& r is Ok ==> mesh_outbox(g1) == mesh_outbox(g0).push((topic, data))
        &&& r is Err ==> mesh_outbox(g1) == mesh_outbox(g0)
    }
}

/// Publishes `data` on `topic` through floodsub, then through gossipsub.
/// An empty topic is refused before either mechanism is touched. A failure
/// of gossipsub does not undo the floodsub send.
pub fn publish_both(
    floodsub: &mut Floodsub,
    gossipsub: &mut gossipsub::Behaviour,
    topic: &str,
    data: &[u8],
) -> (r: Result<(), ProtocolError>)
    ensures
        publish_effect(*old(floodsub), *old(gossipsub), *final(floodsub), *final(gossipsub), topic@, data@, r),
{
    if topic.is_empty() {
        return Err(ProtocolError::InvalidInput("topic cannot be empty".to_owned()));
    }
    floodsub_publish(floodsub, topic, data);
    let sent = match gossipsub_publish(gossipsub, topic, data) {
        Ok(()) => Ok(()),
        Err(e) => Err(publish_failure_of(e)),
    };
    publish_outcome(sent)
}

/// The result of a publish, given what gossipsub's send returned: success
/// when it succeeded, and its failure as a `Publish` error otherwise. The
/// floodsub send has no failure to report.
pub fn publish_outcome(sent: Result<(), PublishFailure>) -> (r: Result<(), ProtocolError>)
    ensures
        sent is Ok <==> r is Ok,
        sent is Err ==> (r matches Err(ProtocolError::Publish(f)) && f == sent->Err_0),
{
    match sent {
        Ok(()) => Ok(()),
        Err(f) => Err(ProtocolError::Publish(f)),
    }
}

impl Protocols {
    /// The topics both mechanisms are subscribed to.
    pub open spec fn subscribed(&self) -> Set<Seq<char>> {
        flood_topics(self.floodsub).intersect(mesh_topics(self.gossipsub))
    }

    /// A router as built: no subscription, an empty partial view, nothing
    /// published, and gossipsub with strict validation, signing, and the
    /// default mesh degree.
    pub open spec fn fresh(&self) -> bool {
        &&& flood_topics(self.floodsub) == Set::<Seq<char>>::empty()
        &&& flood_partial_view(self.floodsub) == Set::<Seq<u8>>::empty()
        &&& flood_outbox(self.floodsub) == Seq::<(Seq<char>, Seq<u8>)>::empty()
        &&& mesh_topics(self.gossipsub) == Set::<Seq<char>>::empty()
        &&& mesh_outbox(self.gossipsub) == Seq::<(Seq<char>, Seq<u8>)>::empty()
        &&& mesh_degree(self.gossipsub) == 6
        &&& mesh_signs_strictly(self.gossipsub)
    }

    /// Builds floodsub for `local_peer_id` and gossipsub with strict
    /// validation, signing outgoing messages with `local_key`. With this
    /// configuration gossipsub is always built; a refusal would be reported
    /// as `GossipsubCreation`.
    pub fn new(local_peer_id: PeerId, local_key: Keypair) -> (r: Result<Protocols, ProtocolError>)
        ensures
            r is Ok,
            r is Ok ==> r->Ok_0.fresh(),
    {
        let config = strict_gossipsub_config();
        let gossipsub = match gossipsub_new_signed(local_key, config) {
            Ok(g) => g,
            Err(e) => return Err(ProtocolError::GossipsubCreation(e)),
        };
        Ok(Protocols { floodsub: floodsub_new(local_peer_id), gossipsub })
    }

    /// Subscribes both mechanisms to `topic`; see [`subscribe_both`].
    pub fn subscribe(&mut self, topic: &str) -> (r: Result<(), ProtocolError>)
        ensures
            subscribe_outcome(
                old(self).floodsub,
                old(self).gossipsub,
                final(self).floodsub,
                final(self).gossipsub,
                topic@,
                r,
            ),
            r is Ok && mesh_degree(old(self).gossipsub) > 0 ==> final(self).subscribed().contains(
                topic@,
            ),
    {
        subscribe_both(&mut self.floodsub, &mut self.gossipsub, topic)
    }

    /// Publishes `data` on `topic` through both mechanisms; see
    /// [`publish_both`].
    pub fn publish(&mut self, topic: &str, data: &[u8]) -> (r: Result<(), ProtocolError>)
        ensures
            publish_effect(
                old(self).floodsub,
                old(self).gossipsub,
                final(self).floodsub,
                final(self).gossipsub,
                topic@,
                data@,
                r,
            ),
            topic@.len() == 0 ==> *final(self) == *old(self),
    {
        publish_both(&mut self.floodsub, &mut self.gossipsub, topic, data)
    }

    /// Leaves every subscription in place: unsubscribing is accepted and
    /// does nothing.
    pub fn unsubscribe(&mut self, topic: &str) -> (r: Result<(), ProtocolError>)
        ensures
            r is Ok,
            *final(self) == *old(self),
    {
        Ok(())
    }
}

/// Subscribing twice to a topic leaves both mechanisms subscribed to it:
/// the second call is refused by floodsub, which stays as it was but for the
/// topic being subscribed, and gossipsub is not asked at all.
pub proof fn lemma_subscribe_twice(
    p0: Protocols,
    p1: Protocols,
    p2: Protocols,
    topic: Seq<char>,
    r1: Result<(), ProtocolError>,
    r2: Result<(), ProtocolError>,
)
    requires
        subscribe_outcome(p0.floodsub, p0.gossipsub, p1.floodsub, p1.gossipsub, topic, r1),
        subscribe_outcome(p1.floodsub, p1.gossipsub, p2.floodsub, p2.gossipsub, topic, r2),
    ensures
        r2 matches Err(ProtocolError::Subscription(m, t)) && m == Mechanism::Floodsub && t@ == topic,
        p2.gossipsub == p1.gossipsub,
        flood_topics(p2.floodsub) == flood_topics(p1.floodsub),
        flood_partial_view(p2.floodsub) == flood_partial_view(p0.floodsub),
        r1 is Ok && mesh_degree(p0.gossipsub) > 0 ==> p2.subscribed().contains(topic),
{
    assert(flood_topics(p1.floodsub).contains(topic));
    assert(flood_topics(p2.floodsub) =~= flood_topics(p1.floodsub));
}

/// A floodsub event.
#[derive(Debug)]
pub enum FloodsubEvent {
    /// A message from `source` on `topics`.
    Message { source: PeerIdentifier, data: Vec<u8>, topics: Vec<String> },
    /// A peer subscribed to a topic.
    Subscribed { peer_id: PeerIdentifier, topic: String },
    /// A peer unsubscribed from a topic.
    Unsubscribed { peer_id: PeerIdentifier, topic: String },
}

/// A gossipsub event.
#[derive(Debug)]
pub enum GossipsubEvent {
    /// A message relayed by `propagation_source`, signed by `source` when
    /// known, with the identifier gossipsub gave it.
    Message {
        propagation_source: PeerIdentifier,
        source: Option<PeerIdentifier>,
        message_id: String,
        data: Vec<u8>,
    },
    /// A peer subscribed to a topic.
    Subscribed { peer_id: PeerIdentifier, topic: String },
    /// A peer unsubscribed from a topic.
    Unsubscribed { peer_id: PeerIdentifier, topic: String },
    /// A peer that does not speak gossipsub connected.
    GossipsubNotSupported { peer_id: PeerIdentifier },
}

/// An event of one of the two mechanisms.
#[derive(Debug)]
pub enum ProtocolEvent {
    Floodsub(FloodsubEvent),
    Gossipsub(GossipsubEvent),
}

} // verus!
