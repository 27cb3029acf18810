//! Peer identifiers: the network's `PeerId` together with its byte encoding,
//! which is what the library compares and keys its records by.
use libp2p::PeerId;
use vstd::prelude::*;

verus! {

#[verifier::external_type_specification]
#[verifier::external_body]
pub struct ExPeerId(PeerId);

/// Relies on `PeerId::to_bytes`: the multihash encoding of the identifier.
/// Two identifiers are equal exactly when their encodings are.
#[verifier::external_body]
fn peer_id_bytes(id: &PeerId) -> (r: Vec<u8>) {
    id.to_bytes()
}

/// An identifier of a peer, derived from its public key.
///
/// Its view is the identifier's byte encoding; equality of peers is equality
/// of these bytes. The encoding is always that of the network identifier it
/// holds: only `new` makes one, from the identifier.
#[derive(Debug)]
pub struct PeerIdentifier {
    id: PeerId,
    bytes: Vec<u8>,
}

impl View for PeerIdentifier {
    type V = Seq<u8>;

    closed spec fn view(&self) -> Seq<u8> {
        self.bytes@
    }
}

impl PeerIdentifier {
    /// The network identifier held.
    pub closed spec fn network_id(&self) -> PeerId {
        self.id
    }

    /// Wraps a network identifier.
    pub fn new(id: PeerId) -> (r: PeerIdentifier)
        ensures
            r.network_id() == id,
    {
        let bytes = peer_id_bytes(&id);
        PeerIdentifier { id, bytes }
    }

    /// The network identifier.
    pub fn peer_id(&self) -> (r: PeerId)
        ensures
            r == self.network_id(),
    {
        self.id
    }

    /// The byte encoding that identifies this peer.
    pub fn as_bytes(&self) -> (r: &[u8])
        ensures
            r@ == self@,
    {
        self.bytes.as_slice()
    }

    /// Whether two identifiers name the same peer.
    pub fn same_peer(&self, other: &PeerIdentifier) -> (r: bool)
        ensures
            r == (self@ == other@),
    {
        bytes_equal(&self.bytes, &other.bytes)
    }

    /// A copy of this identifier.
    pub fn duplicate(&self) -> (r: PeerIdentifier)
        ensures
            r@ == self@,
            r.network_id() == self.network_id(),
    {
        PeerIdentifier { id: self.id, bytes: copy_bytes(&self.bytes) }
    }

    /// The byte encoding, as an owned vector.
    pub fn to_bytes(&self) -> (r: Vec<u8>)
        ensures
            r@ == self@,
    {
        copy_bytes(&self.bytes)
    }
}

/// An element-wise copy of a byte vector.
pub fn copy_bytes(v: &Vec<u8>) -> (r: Vec<u8>)
    ensures
        r@ == v@,
{
    let mut r: Vec<u8> = Vec::with_capacity(v.len());
    let mut i: usize = 0;
    while i < v.len()
        invariant
            i <= v@.len(),
            r@ == v@.subrange(0, i as int),
        decreases v@.len() - i,
    {
        r.push(v[i]);
        i = i + 1;
        assert(r@ =~= v@.subrange(0, i as int));
    }
    assert(r@ =~= v@);
    r
}

/// Byte-wise equality of two sequences.
pub fn bytes_equal(a: &Vec<u8>, b: &Vec<u8>) -> (r: bool)
    ensures
        r == (a@ == b@),
{
    if a.len() != b.len() {
        return false;
    }
    let mut i: usize = 0;
    while i < a.len()
        invariant
            a@.len() == b@.len(),
            i <= a@.len(),
            forall|k: int| 0 <= k < i ==> a@[k] == b@[k],
        decreases a@.len() - i,
    {
        if a[i] != b[i] {
            return false;
        }
        i = i + 1;
    }
    assert(a@ =~= b@);
    true
}

} // verus!
