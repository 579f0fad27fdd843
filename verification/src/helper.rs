//! Conversions between the names that libp2p and iroh give to one node.

use vstd::prelude::*;

use libp2p::Multiaddr;

use crate::address;
use crate::keys;
use crate::keys::{EndpointId, Keypair, SecretKey};
use crate::peer;
use crate::peer::PeerId;

verus! {

/// The bytes of an optional endpoint identifier.
pub open spec fn node_bytes(id: Option<EndpointId>) -> Option<Seq<u8>> {
    match id {
        Some(id) => Some(id@),
        None => None,
    }
}

/// The bytes of an optional secret key.
pub open spec fn secret_bytes(key: Option<SecretKey>) -> Option<Seq<u8>> {
    match key {
        Some(key) => Some(key@),
        None => None,
    }
}

/// The endpoint that a peer identifier of the bytes `peer` names: its last 32 bytes, if there are
/// 38 in all and those are a valid key.
pub open spec fn node_of_peer(peer: Seq<u8>) -> Option<Seq<u8>> {
    if peer.len() == 38 && keys::is_ed25519_key(peer.subrange(6, 38)) {
        Some(peer.subrange(6, 38))
    } else {
        None
    }
}

/// The endpoint that one component of an address names, if any.
pub open spec fn node_of_component(component: Option<Seq<u8>>) -> Option<Seq<u8>> {
    match component {
        Some(peer) => node_of_peer(peer),
        None => None,
    }
}

/// The endpoint that the first component to name one names.
pub open spec fn node_of_components(components: Seq<Option<Seq<u8>>>) -> Option<Seq<u8>>
    decreases components.len(),
{
    if components.len() == 0 {
        None
    } else if node_of_component(components[0]) is Some {
        node_of_component(components[0])
    } else {
        node_of_components(components.drop_first())
    }
}

/// The endpoint that a multiaddress leads to: the one named by its first `/p2p/` component whose
/// peer identifier converts. Components of other protocols, and peer identifiers that do not
/// convert, are passed over.
pub fn multiaddr_to_iroh_node_id(addr: &Multiaddr) -> (id: Option<EndpointId>)
    ensures
        node_bytes(id) == node_of_components(address::components(*addr)),
{
    let peer_ids = address::peer_ids(addr);
    assert(address::bytes_of_each(peer_ids@) =~= address::components(*addr));
    first_node_id(peer_ids.as_slice())
}

/// The endpoint that the first of the peer identifiers to name one names. An item without an
/// identifier stands for a component of another protocol.
pub fn first_node_id(peer_ids: &[Option<PeerId>]) -> (id: Option<EndpointId>)
    ensures
        node_bytes(id) == node_of_components(address::bytes_of_each(peer_ids@)),
{
    let ghost all = address::bytes_of_each(peer_ids@);
    assert(all.skip(0) =~= all);
    for i in 0..peer_ids.len()
        invariant
            all == address::bytes_of_each(peer_ids@),
            node_of_components(all) == node_of_components(all.skip(i as int)),
    {
        assert(all.skip(i as int).drop_first() =~= all.skip(i + 1));
        if let Some(peer_id) = &peer_ids[i] {
            let id = peer_id_to_node_id(peer_id);
            if id.is_some() {
                return id;
            }
        }
    }
    None
}

/// The endpoint that a peer identifier names: its last 32 bytes, where it has 38 bytes and those
/// are a valid key.
pub fn peer_id_to_node_id(peer_id: &PeerId) -> (id: Option<EndpointId>)
    ensures
        node_bytes(id) == node_of_peer(peer_id@),
{
    let bytes = peer_id.as_bytes();
    if bytes.len() != 38 {
        return None;
    }
    match keys::key_bytes(vstd::slice::slice_subrange(bytes, 6, 38)) {
        Some(key) => EndpointId::from_bytes(&key),
        None => None,
    }
}

/// The iroh secret key of a libp2p key pair, if that is an Ed25519 pair.
pub fn libp2p_keypair_to_iroh_secret(keypair: &Keypair) -> (secret: Option<SecretKey>)
    ensures
        secret_bytes(secret) == keys::ed25519_secret_of(keypair@),
        keys::is_ed25519_encoding(keypair@) ==> secret_bytes(secret) == Some(
            keypair@.subrange(4, 36),
        ),
{
    match keys::libp2p_ed25519_secret(keypair.encoding()) {
        Some(secret) => SecretKey::from_slice(secret.as_slice()),
        None => None,
    }
}

/// The address of an endpoint: the `/p2p/` component of its peer identifier.
pub fn iroh_node_id_to_multiaddr(node_id: &EndpointId) -> (addr: Multiaddr)
    ensures
        address::components(addr) == seq![Some(peer::ed25519_peer_id(node_id@))],
{
    let peer_id = PeerId::of_key(node_id.as_bytes().as_slice());
    address::p2p_address(&peer_id)
}

/// The peer identifier of an endpoint. Every endpoint has one.
pub fn node_id_to_peerid(node_id: &EndpointId) -> (peer_id: Option<PeerId>)
    ensures
        peer_id matches Some(peer_id) && peer_id@ == peer::ed25519_peer_id(node_id@),
{
    let key = node_id.as_bytes().as_slice();
    if peer::libp2p_accepts_key(key) {
        Some(PeerId::of_key(key))
    } else {
        None
    }
}

} // verus!
