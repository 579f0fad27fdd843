//! Multiaddresses: what the transport reads in them and writes to them.

use vstd::prelude::*;

use libp2p::Multiaddr;

use crate::keys;
use crate::peer;
use crate::peer::PeerId;

verus! {

/// A multiaddress of libp2p, a sequence of protocol components.
#[verifier::external_type_specification]
#[verifier::external_body]
pub struct ExMultiaddr(libp2p::Multiaddr);

/// The components of an address in their order: the bytes of the peer identifier for a `/p2p/`
/// component, and `None` for one of any other protocol.
pub uninterp spec fn components(addr: libp2p::Multiaddr) -> Seq<Option<Seq<u8>>>;

/// Calls `libp2p::Multiaddr::empty`: an address without components.
#[verifier::external_body]
fn multiaddr_empty() -> (addr: Multiaddr)
    ensures
        components(addr) == Seq::<Option<Seq<u8>>>::empty(),
{
    Multiaddr::empty()
}

/// Calls `libp2p::Multiaddr::push` with a `/p2p/` component, which comes to stand behind those
/// that the address has.
#[verifier::external_body]
fn multiaddr_push_p2p(addr: &mut Multiaddr, peer_id: &[u8])
    requires
        peer::is_peer_id(peer_id@),
    ensures
        components(*final(addr)) == components(*old(addr)).push(Some(peer_id@)),
{
    let peer_id = libp2p::PeerId::from_bytes(peer_id).expect("a peer identifier");
    addr.push(libp2p::multiaddr::Protocol::P2p(peer_id));
}

/// Calls `libp2p::Multiaddr::iter` and hands out the components in their order, each `/p2p/`
/// component as the bytes of its peer identifier, and any other as `None`.
#[verifier::external_body]
fn multiaddr_iter(addr: &Multiaddr) -> (items: Vec<Option<Vec<u8>>>)
    ensures
        items@.len() == components(*addr).len(),
        forall|i: int|
            0 <= i < items@.len() ==> keys::bytes_of(#[trigger] items@[i]) == components(
                *addr,
            )[i],
        forall|i: int|
            0 <= i < items@.len() ==> (#[trigger] items@[i] matches Some(bytes) ==> peer::is_peer_id(
                bytes@,
            )),
{
    addr.iter()
        .map(|component| match component {
            libp2p::multiaddr::Protocol::P2p(peer_id) => Some(peer_id.to_bytes()),
            _ => None,
        })
        .collect()
}

/// The component that `peer_id` stands for: a `/p2p/` component, or another one.
pub open spec fn component_bytes(peer_id: Option<PeerId>) -> Option<Seq<u8>> {
    match peer_id {
        Some(peer_id) => Some(peer_id@),
        None => None,
    }
}

/// The components that the items of `peer_ids` stand for.
pub open spec fn bytes_of_each(peer_ids: Seq<Option<PeerId>>) -> Seq<Option<Seq<u8>>> {
    peer_ids.map_values(|peer_id: Option<PeerId>| component_bytes(peer_id))
}

/// The components of an address in their order: the peer identifier of a `/p2p/` component, and
/// `None` for one of any other protocol.
pub fn peer_ids(addr: &Multiaddr) -> (peer_ids: Vec<Option<PeerId>>)
    ensures
        bytes_of_each(peer_ids@) == components(*addr),
{
    let items = multiaddr_iter(addr);
    let ghost all = components(*addr);
    let mut peer_ids: Vec<Option<PeerId>> = Vec::new();
    for item in iter: items
        invariant
            iter.seq().len() == all.len(),
            forall|i: int|
                0 <= i < all.len() ==> keys::bytes_of(#[trigger] iter.seq()[i]) == all[i],
            forall|i: int|
                0 <= i < all.len() ==> (#[trigger] iter.seq()[i] matches Some(bytes)
                    ==> peer::is_peer_id(bytes@)),
            bytes_of_each(peer_ids@) == all.take(iter.index()),
    {
        let ghost at = iter.index();
        let peer_id = match item {
            Some(bytes) => PeerId::from_bytes(bytes),
            None => None,
        };
        let ghost before = peer_ids@;
        peer_ids.push(peer_id);
        assert(bytes_of_each(peer_ids@) =~= bytes_of_each(before).push(component_bytes(peer_id)));
        assert(bytes_of_each(peer_ids@) =~= all.take(at + 1));
    }
    assert(all.take(all.len() as int) =~= all);
    peer_ids
}

/// The address that consists of the `/p2p/` component of `peer_id` alone.
pub fn p2p_address(peer_id: &PeerId) -> (addr: Multiaddr)
    ensures
        components(addr) == seq![Some(peer_id@)],
{
    let mut addr = multiaddr_empty();
    multiaddr_push_p2p(&mut addr, peer_id.as_bytes());
    proof {
        assert(components(addr) =~= seq![Some(peer_id@)]);
    }
    addr
}

} // verus!
