//! Setting up a node's protocols and its listen address.
use crate::error::NetworkError;
use crate::mechanisms::{
    flood_partial_view, flood_topics, is_multiaddr, mesh_signs_strictly, mesh_topics, parse_multiaddr,
};
use crate::protocol::Protocols;
use libp2p::identity::Keypair;
use libp2p::{Multiaddr, PeerId};
use vstd::prelude::*;

verus! {

/// The address a node listens on: every interface, a port the system picks.
pub open spec fn listen_text() -> Seq<char> {
    "/ip4/0.0.0.0/tcp/0"@
}

/// Builds the protocols of a node with identity `local_key` and subscribes
/// both mechanisms to `topic`.
pub fn create_protocols(local_key: Keypair, local_peer_id: PeerId, topic: &str) -> (r: Result<
    Protocols,
    NetworkError,
>)
    ensures
        r is Ok,
        r is Ok ==> flood_topics(r->Ok_0.floodsub) == Set::<Seq<char>>::empty().insert(topic@)
            && mesh_topics(r->Ok_0.gossipsub) == Set::<Seq<char>>::empty().insert(topic@)
            && flood_partial_view(r->Ok_0.floodsub) == Set::<Seq<u8>>::empty()
            && mesh_signs_strictly(r->Ok_0.gossipsub),
{
    let mut protocols = match Protocols::new(local_peer_id, local_key) {
        Ok(p) => p,
        Err(e) => return Err(NetworkError::ProtocolCreation(e)),
    };
    match protocols.subscribe(topic) {
        Ok(()) => Ok(protocols),
        Err(e) => Err(NetworkError::TopicSubscription(e)),
    }
}

/// The address to listen on.
pub fn listen_address() -> (r: Result<Multiaddr, NetworkError>)
    ensures
        r is Ok == is_multiaddr(listen_text()),
        r is Err ==> (r matches Err(NetworkError::AddressParse(t)) && t@ == listen_text()),
{
    let text = "/ip4/0.0.0.0/tcp/0";
    match parse_multiaddr(text) {
        Some(a) => Ok(a),
        None => Err(NetworkError::AddressParse(text.to_owned())),
    }
}

} // verus!
