//! What holds of the transport as a whole: how its functions go together.

use vstd::prelude::*;

use libp2p::Multiaddr;

use crate::address;
use crate::config;
use crate::config::{RelayMode, Timeout, TransportConfig};
use crate::error;
use crate::error::{ErrorText, TransportError, TransportErrorKind};
use crate::helper;
use crate::keys;
use crate::keys::{EndpointId, Keypair, SecretKey};
use crate::peer;
use crate::peer::PeerId;
use crate::protocol;
use crate::protocol::{Acceptance, Listener, Protocol, TransportEvent};
use crate::transport::{
    BindRequest, Connect, Dialing, Identity, Received, Setup, Startup, Transport,
};

verus! {

/// An endpoint is found again from its peer identifier.
pub proof fn law_node_peer_node(node: Seq<u8>)
    requires
        keys::is_ed25519_key(node),
    ensures
        helper::node_of_peer(peer::ed25519_peer_id(node)) == Some(node),
{
    peer::lemma_ed25519_peer_id(node);
}

/// A peer identifier that names an endpoint, and that has the form which identifiers of Ed25519
/// keys have, is found again from that endpoint.
pub proof fn law_peer_node_peer(peer: Seq<u8>)
    requires
        helper::node_of_peer(peer) is Some,
        peer.subrange(0, 6) == peer::ed25519_header(),
    ensures
        peer::ed25519_peer_id(helper::node_of_peer(peer)->0) == peer,
{
    assert(peer.subrange(0, 6) + peer.subrange(6, 38) =~= peer);
}

/// Different endpoints have different peer identifiers.
pub proof fn law_peer_ids_are_distinct(node: Seq<u8>, other: Seq<u8>)
    requires
        keys::is_ed25519_key(node),
        keys::is_ed25519_key(other),
        peer::ed25519_peer_id(node) == peer::ed25519_peer_id(other),
    ensures
        node == other,
{
    law_node_peer_node(node);
    law_node_peer_node(other);
}

/// The address of an endpoint leads to that endpoint.
pub proof fn law_address_leads_to_its_node(addr: Multiaddr, node: Seq<u8>)
    requires
        keys::is_ed25519_key(node),
        protocol::is_address_of(addr, node),
    ensures
        helper::node_of_components(address::components(addr)) == Some(node),
{
    law_node_peer_node(node);
}

/// The endpoint of an address is the one that its first component to name one names; and there is
/// none exactly if no component names one.
pub proof fn law_first_component_counts(components: Seq<Option<Seq<u8>>>)
    ensures
        match helper::node_of_components(components) {
            Some(node) => exists|i: int|
                0 <= i < components.len() && #[trigger] helper::node_of_component(components[i])
                    == Some(node) && forall|j: int|
                    0 <= j < i ==> #[trigger] helper::node_of_component(components[j]) is None,
            None => forall|i: int|
                0 <= i < components.len() ==> #[trigger] helper::node_of_component(
                    components[i],
                ) is None,
        },
    decreases components.len(),
{
    if components.len() > 0 {
        let rest = components.drop_first();
        law_first_component_counts(rest);
        if helper::node_of_component(components[0]) is None {
            assert(forall|i: int| 0 <= i < rest.len() ==> components[i + 1] == #[trigger] rest[i]);
            match helper::node_of_components(rest) {
                Some(node) => {
                    let i = choose|i: int|
                        0 <= i < rest.len() && #[trigger] helper::node_of_component(rest[i])
                            == Some(node) && forall|j: int|
                            0 <= j < i ==> #[trigger] helper::node_of_component(rest[j]) is None;
                    assert(helper::node_of_component(components[i + 1]) == Some(node));
                    assert forall|j: int| 0 <= j < i + 1 implies #[trigger] helper::node_of_component(
                        components[j],
                    ) is None by {
                        if j > 0 {
                            assert(helper::node_of_component(rest[j - 1]) is None);
                        }
                    }
                },
                None => {
                    assert forall|i: int|
                        0 <= i < components.len() implies #[trigger] helper::node_of_component(
                        components[i],
                    ) is None by {
                        if i > 0 {
                            assert(helper::node_of_component(rest[i - 1]) is None);
                        }
                    }
                },
            }
        } else {
            assert(helper::node_of_component(components[0]) is Some);
        }
    }
}

/// A `/p2p/` component counts wherever in an address it stands, as long as no component before it
/// names an endpoint.
pub proof fn law_prefix_is_passed_over(
    before: Seq<Option<Seq<u8>>>,
    node: Seq<u8>,
    after: Seq<Option<Seq<u8>>>,
)
    requires
        keys::is_ed25519_key(node),
        forall|i: int|
            0 <= i < before.len() ==> #[trigger] helper::node_of_component(before[i]) is None,
    ensures
        helper::node_of_components(before + seq![Some(peer::ed25519_peer_id(node))] + after) == Some(
            node,
        ),
    decreases before.len(),
{
    let all = before + seq![Some(peer::ed25519_peer_id(node))] + after;
    law_node_peer_node(node);
    if before.len() > 0 {
        let rest = before.drop_first();
        assert(all[0] == before[0]);
        assert(helper::node_of_component(before[0]) is None);
        assert forall|i: int| 0 <= i < rest.len() implies #[trigger] helper::node_of_component(
            rest[i],
        ) is None by {
            assert(helper::node_of_component(before[i + 1]) is None);
        }
        law_prefix_is_passed_over(rest, node, after);
        assert(all.drop_first() =~= rest + seq![Some(peer::ed25519_peer_id(node))] + after);
    } else {
        assert(all[0] == Some(peer::ed25519_peer_id(node)));
    }
}

/// The endpoint that runs under the secret key of a key pair is the one that the peer identifier
/// of the pair names.
pub proof fn law_keypair_names_its_endpoint(keypair: Keypair, endpoint: EndpointId, peer_id: PeerId)
    requires
        keys::ed25519_secret_of(keypair@) is Some,
        endpoint.wf(),
        endpoint@ == keys::ed25519_public_key(keys::ed25519_secret_of(keypair@)->0),
        peer_id@ == peer::ed25519_peer_id(
            keys::ed25519_public_key(keys::ed25519_secret_of(keypair@)->0),
        ),
    ensures
        helper::node_of_peer(peer_id@) == Some(endpoint@),
{
    law_node_peer_node(endpoint@);
}

/// To start with the default configuration is to start without one.
pub proof fn law_default_config_is_none<F>(
    keypair: Option<&Keypair>,
    config: TransportConfig<F>,
    started: Result<(Setup<F>, BindRequest), TransportError>,
)
    requires
        config.relay_mode == RelayMode::Default,
        config.timeout@ == 300 * 1_000_000_000,
        config.peer_filter is None,
    ensures
        crate::transport::is_start(
            keypair,
            config.relay_mode,
            config.timeout@,
            config.peer_filter,
            started,
        ) == crate::transport::is_start(
            keypair,
            RelayMode::Default,
            300 * 1_000_000_000,
            None,
            started,
        ),
{
}

/// A transport that came up is as it was configured: its endpoint was to be bound with the relay
/// mode of its configuration, it has the time limit and the peer filter of that, it runs under the
/// secret key that was bound, and its names follow from that key.
pub proof fn law_transport_is_as_configured<F>(
    setup: Setup<F>,
    request: BindRequest,
    secret: Seq<u8>,
    relay_mode: RelayMode,
    time_limit: nat,
    filter: Option<F>,
    bound: Seq<u8>,
    transport: Transport<F>,
)
    requires
        crate::transport::is_started(setup, request, secret, relay_mode, time_limit, filter),
        crate::transport::is_fresh(transport, setup, bound),
    ensures
        request.relay_mode == relay_mode,
        transport.time_limit() == time_limit,
        transport.filter() == filter,
        transport.secret() == request.secret_key@,
        transport.node() == keys::ed25519_public_key(secret),
        transport.peer() == peer::ed25519_peer_id(keys::ed25519_public_key(secret)),
        helper::node_of_peer(transport.peer()) == Some(transport.node()),
{
    law_node_peer_node(transport.node());
}

/// Where the endpoint runs under the key that it was to be bound with, connections come in at the
/// endpoint which the transport takes for its own.
pub proof fn law_endpoint_is_the_node<F>(
    setup: Setup<F>,
    request: BindRequest,
    secret: Seq<u8>,
    relay_mode: RelayMode,
    time_limit: nat,
    filter: Option<F>,
    transport: Transport<F>,
)
    requires
        crate::transport::is_started(setup, request, secret, relay_mode, time_limit, filter),
        crate::transport::is_fresh(
            transport,
            setup,
            keys::ed25519_public_key(request.secret_key@),
        ),
    ensures
        transport.local_node() == transport.node(),
{
}

/// To start and to stop to listen keeps a transport well formed.
pub proof fn law_listening_keeps_wf<F>(
    before: Transport<F>,
    id: Option<Listener>,
    after: Transport<F>,
)
    requires
        before.wf(),
        after.is_listening_for(id, before),
    ensures
        after.wf(),
{
}

/// To set the time limit keeps a transport well formed.
pub proof fn law_time_limit_keeps_wf<F>(
    before: Transport<F>,
    time_limit: nat,
    after: Transport<F>,
)
    requires
        before.wf(),
        after.is_limited_to(time_limit, before),
    ensures
        after.wf(),
{
}

/// A transport that starts to listen and then stops is as it was.
pub proof fn law_remove_undoes_listen<F>(
    before: Transport<F>,
    id: Listener,
    listening: Transport<F>,
    after: Transport<F>,
)
    requires
        before.wf(),
        before.listener() is None,
        listening.is_listening_for(Some(id), before),
        after.is_listening_for(None, listening),
    ensures
        after.same_state(before),
{
}

/// Who dials the address that a transport announces, or that of its peer identifier alone, is led
/// to the endpoint of that transport, and, connected to it, is told the transport's own peer
/// identifier.
pub proof fn law_dial_leads_to_the_listener<F>(
    transport: Transport<F>,
    id: Listener,
    event: TransportEvent,
    addr: Multiaddr,
)
    requires
        transport.wf(),
        crate::transport::is_new_address(event, id, transport.node()),
        address::components(addr) == seq![Some(transport.peer())],
    ensures
        event matches TransportEvent::NewAddress { listener_id, listen_addr }
            && helper::node_of_components(address::components(listen_addr)) == Some(
            transport.node(),
        ) && address::components(listen_addr) == seq![Some(transport.peer())],
        helper::node_of_components(address::components(addr)) == Some(transport.node()),
        peer::ed25519_peer_id(transport.node()) == transport.peer(),
{
    law_node_peer_node(transport.node());
}

/// Who dials back the address that an incoming connection carries is led to the endpoint which the
/// connection came from, and its peer identifier names that endpoint too.
pub proof fn law_dial_back_leads_to_the_remote<F>(
    handler: Protocol<F>,
    verdict: Option<bool>,
    remote: EndpointId,
    acceptance: Acceptance,
)
    requires
        remote.wf(),
        protocol::is_acceptance(handler, verdict, remote@, acceptance),
    ensures
        acceptance matches Acceptance::Announce(event) ==> (event matches TransportEvent::Incoming {
            listener_id,
            peer_id,
            local_addr,
            send_back_addr,
        } && helper::node_of_components(address::components(send_back_addr)) == Some(remote@)
            && helper::node_of_peer(peer_id@) == Some(remote@) && address::components(
            send_back_addr,
        ) == seq![Some(peer_id@)]),
{
    law_node_peer_node(remote@);
}

/// The local address that an incoming connection carries leads to the endpoint at which it came
/// in.
pub proof fn law_local_address_leads_to_the_endpoint<F>(
    handler: Protocol<F>,
    verdict: Option<bool>,
    remote: Seq<u8>,
    acceptance: Acceptance,
)
    requires
        keys::is_ed25519_key(handler.local_node()),
        protocol::is_acceptance(handler, verdict, remote, acceptance),
    ensures
        acceptance matches Acceptance::Announce(event) ==> (event matches TransportEvent::Incoming {
            listener_id,
            peer_id,
            local_addr,
            send_back_addr,
        } && helper::node_of_components(address::components(local_addr)) == Some(
            handler.local_node(),
        )),
{
    law_node_peer_node(handler.local_node());
}

/// Both ends of a connection learn who is at the other: the listener hears of the dialer's own
/// peer identifier, and the dialer of the listener's.
pub proof fn law_both_ends_know_each_other<F, G>(
    dialer: Transport<F>,
    listener: Transport<G>,
    verdict: Option<bool>,
    acceptance: Acceptance,
    reached: PeerId,
)
    requires
        dialer.wf(),
        listener.wf(),
        protocol::is_acceptance(listener.handler(), verdict, dialer.node(), acceptance),
        reached@ == peer::ed25519_peer_id(listener.node()),
    ensures
        acceptance matches Acceptance::Announce(event) ==> (event matches TransportEvent::Incoming {
            listener_id,
            peer_id,
            local_addr,
            send_back_addr,
        } && peer_id@ == dialer.peer()),
        reached@ == listener.peer(),
{
}

/// A connection that the peer filter turns down is rejected, and the swarm never hears of it.
pub proof fn law_filter_rejects<F: Fn(&EndpointId) -> bool>(
    handler: Protocol<F>,
    filter: F,
    remote: &EndpointId,
    verdict: Option<bool>,
    acceptance: Acceptance,
)
    requires
        handler.filter() == Some(filter),
        forall|accepted: bool| call_ensures(filter, (remote,), accepted) ==> !accepted,
        protocol::is_verdict(handler.filter(), remote, verdict),
        protocol::is_acceptance(handler, verdict, remote@, acceptance),
    ensures
        acceptance matches Acceptance::Reject { code, reason, error } && code == 1 && reason@
            == "rejected by peer filter"@
                && error@ == ErrorText::Listen("Peer rejected by filter"@),
{
}

/// Without a peer filter every connection to a transport that listens is accepted, and the swarm
/// hears of it under the listener and under the peer identifier of the remote endpoint.
pub proof fn law_no_filter_accepts_all<F: Fn(&EndpointId) -> bool>(
    transport: Transport<F>,
    remote: &EndpointId,
    verdict: Option<bool>,
    acceptance: Acceptance,
)
    requires
        transport.wf(),
        transport.listener() is Some,
        transport.handler().filter() is None,
        protocol::is_verdict(transport.handler().filter(), remote, verdict),
        protocol::is_acceptance(transport.handler(), verdict, remote@, acceptance),
    ensures
        acceptance matches Acceptance::Announce(event) && (event matches TransportEvent::Incoming {
            listener_id,
            peer_id,
            local_addr,
            send_back_addr,
        } && transport.listener() == Some(listener_id) && peer_id@ == peer::ed25519_peer_id(
            remote@,
        )),
{
}

/// The swarm hears of connections only while the transport listens, and then each belongs to the
/// listener.
pub proof fn law_connections_belong_to_the_listener<F>(
    transport: Transport<F>,
    verdict: Option<bool>,
    remote: Seq<u8>,
    acceptance: Acceptance,
)
    requires
        transport.wf(),
        protocol::is_acceptance(transport.handler(), verdict, remote, acceptance),
    ensures
        acceptance matches Acceptance::Announce(event) ==> (event matches TransportEvent::Incoming {
            listener_id,
            peer_id,
            local_addr,
            send_back_addr,
        } && transport.listener() == Some(listener_id)),
{
}

/// `node_id_to_peerid` always gives an identifier, which is the key of the endpoint behind the
/// header of Ed25519 keys, and `peer_id_to_node_id` finds the endpoint in it again.
pub proof fn law_peer_id_of_an_endpoint(
    node: EndpointId,
    peer_id: Option<PeerId>,
    back: Option<EndpointId>,
)
    requires
        keys::is_ed25519_key(node@),
        call_ensures(helper::node_id_to_peerid, (&node,), peer_id),
        call_ensures(helper::peer_id_to_node_id, (&peer_id->0,), back),
    ensures
        peer_id matches Some(p)
            && p@ == peer::ed25519_header() + node@,
        back matches Some(b) && b@ == node@,
{
    law_node_peer_node(node@);
}

/// `peer_id_to_node_id` takes the last 32 bytes of an identifier of 38 bytes, if they are a valid
/// key, and nothing of any other identifier.
pub proof fn law_endpoint_of_a_peer_id(peer_id: PeerId, node: Option<EndpointId>)
    requires
        call_ensures(helper::peer_id_to_node_id, (&peer_id,), node),
    ensures
        node is Some <==> peer_id@.len() == 38 && keys::is_ed25519_key(peer_id@.subrange(6, 38)),
        node matches Some(n) ==> n@ == peer_id@.subrange(6, 38),
{
}

/// The address that `iroh_node_id_to_multiaddr` gives consists of the peer identifier of the
/// endpoint alone, in full, and `multiaddr_to_iroh_node_id` finds the endpoint in it again.
pub proof fn law_address_of_an_endpoint(
    node: EndpointId,
    peer_id: Option<PeerId>,
    addr: Multiaddr,
    back: Option<EndpointId>,
)
    requires
        keys::is_ed25519_key(node@),
        call_ensures(helper::node_id_to_peerid, (&node,), peer_id),
        call_ensures(helper::iroh_node_id_to_multiaddr, (&node,), addr),
        call_ensures(helper::multiaddr_to_iroh_node_id, (&addr,), back),
    ensures
        address::components(addr) == seq![Some(peer::ed25519_header() + node@)],
        peer_id matches Some(p) && address::components(addr) == seq![Some(p@)],
        back matches Some(b) && b@ == node@,
{
    law_node_peer_node(node@);
}

/// `multiaddr_to_iroh_node_id` gives the key in the first `/p2p/` component of 38 bytes that ends
/// in one, and nothing exactly if there is no such component.
pub proof fn law_endpoint_of_an_address(addr: Multiaddr, node: Option<EndpointId>)
    requires
        call_ensures(helper::multiaddr_to_iroh_node_id, (&addr,), node),
    ensures
        ({
            let all = address::components(addr);
            match node {
                Some(n) => exists|i: int|
                    0 <= i < all.len() && (#[trigger] all[i] matches Some(p) && p.len() == 38
                        && keys::is_ed25519_key(p.subrange(6, 38)) && n@ == p.subrange(6, 38))
                        && forall|j: int|
                        0 <= j < i ==> !(#[trigger] all[j] matches Some(p) && p.len() == 38
                            && keys::is_ed25519_key(p.subrange(6, 38))),
                None => forall|j: int|
                    0 <= j < all.len() ==> !(#[trigger] all[j] matches Some(p) && p.len() == 38
                        && keys::is_ed25519_key(p.subrange(6, 38))),
            }
        }),
{
    lemma_search(address::components(addr), node);
}

/// What a search that gave `node` says of the components, in terms of their bytes.
proof fn lemma_search(all: Seq<Option<Seq<u8>>>, node: Option<EndpointId>)
    requires
        helper::node_bytes(node) == helper::node_of_components(all),
    ensures
        match node {
            Some(n) => exists|i: int|
                0 <= i < all.len() && (#[trigger] all[i] matches Some(p) && p.len() == 38
                    && keys::is_ed25519_key(p.subrange(6, 38)) && n@ == p.subrange(6, 38))
                    && forall|j: int|
                    0 <= j < i ==> !(#[trigger] all[j] matches Some(p) && p.len() == 38
                        && keys::is_ed25519_key(p.subrange(6, 38))),
            None => forall|j: int|
                0 <= j < all.len() ==> !(#[trigger] all[j] matches Some(p) && p.len() == 38
                    && keys::is_ed25519_key(p.subrange(6, 38))),
        },
{
    law_first_component_counts(all);
    match node {
        Some(n) => {
            let i = choose|i: int|
                0 <= i < all.len() && #[trigger] helper::node_of_component(all[i]) == Some(n@)
                    && forall|j: int|
                    0 <= j < i ==> #[trigger] helper::node_of_component(all[j]) is None;
            assert(all[i] is Some);
            assert forall|j: int| 0 <= j < i implies !(#[trigger] all[j] matches Some(p) && p.len()
                == 38 && keys::is_ed25519_key(p.subrange(6, 38))) by {
                assert(helper::node_of_component(all[j]) is None);
            }
        },
        None => {
            assert forall|j: int| 0 <= j < all.len() implies !(#[trigger] all[j] matches Some(p)
                && p.len() == 38 && keys::is_ed25519_key(p.subrange(6, 38))) by {
                assert(helper::node_of_component(all[j]) is None);
            }
        },
    }
}

/// `first_node_id` gives the key in the first identifier of 38 bytes that ends in one, and nothing
/// exactly if there is no such identifier.
pub proof fn law_first_of_peer_ids(peer_ids: &[Option<PeerId>], node: Option<EndpointId>)
    requires
        call_ensures(helper::first_node_id, (peer_ids,), node),
    ensures
        match node {
            Some(n) => exists|i: int|
                0 <= i < peer_ids@.len() && (#[trigger] peer_ids@[i] matches Some(p) && p@.len()
                    == 38 && keys::is_ed25519_key(p@.subrange(6, 38)) && n@ == p@.subrange(6, 38))
                    && forall|j: int|
                    0 <= j < i ==> !(#[trigger] peer_ids@[j] matches Some(p) && p@.len() == 38
                        && keys::is_ed25519_key(p@.subrange(6, 38))),
            None => forall|j: int|
                0 <= j < peer_ids@.len() ==> !(#[trigger] peer_ids@[j] matches Some(p) && p@.len()
                    == 38 && keys::is_ed25519_key(p@.subrange(6, 38))),
        },
{
    let all = address::bytes_of_each(peer_ids@);
    lemma_search(all, node);
    assert(all.len() == peer_ids@.len());
    assert forall|i: int| 0 <= i < all.len() implies (#[trigger] peer_ids@[i] matches Some(p)
        ==> all[i] == Some(p@)) && (peer_ids@[i] is None ==> all[i] is None) by {
    }
    match node {
        Some(n) => {
            let i = choose|i: int|
                0 <= i < all.len() && (#[trigger] all[i] matches Some(p) && p.len() == 38
                    && keys::is_ed25519_key(p.subrange(6, 38)) && n@ == p.subrange(6, 38))
                    && forall|j: int|
                    0 <= j < i ==> !(#[trigger] all[j] matches Some(p) && p.len() == 38
                        && keys::is_ed25519_key(p.subrange(6, 38)));
            assert(peer_ids@[i] is Some);
            assert forall|j: int| 0 <= j < i implies !(#[trigger] peer_ids@[j] matches Some(p)
                && p@.len() == 38 && keys::is_ed25519_key(p@.subrange(6, 38))) by {
                assert(!(all[j] matches Some(p) && p.len() == 38 && keys::is_ed25519_key(
                    p.subrange(6, 38),
                )));
            }
        },
        None => {
            assert forall|j: int| 0 <= j < all.len() implies !(#[trigger] peer_ids@[j] matches Some(
                p,
            ) && p@.len() == 38 && keys::is_ed25519_key(p@.subrange(6, 38))) by {
                assert(!(all[j] matches Some(p) && p.len() == 38 && keys::is_ed25519_key(
                    p.subrange(6, 38),
                )));
            }
        },
    }
}

/// `peer_ids` keeps the components of an address, each in its place and in full, and `p2p_address`
/// makes an address of a single one.
pub proof fn law_components_are_kept(
    addr: Multiaddr,
    peer_ids: Vec<Option<PeerId>>,
    peer_id: PeerId,
    single: Multiaddr,
)
    requires
        call_ensures(address::peer_ids, (&addr,), peer_ids),
        call_ensures(address::p2p_address, (&peer_id,), single),
    ensures
        peer_ids@.len() == address::components(addr).len(),
        forall|i: int|
            0 <= i < peer_ids@.len() ==> match #[trigger] peer_ids@[i] {
                Some(p) => address::components(addr)[i] == Some(p@),
                None => address::components(addr)[i] is None,
            },
        address::components(single) == seq![Some(peer_id@)],
{
    let all = address::bytes_of_each(peer_ids@);
    assert(all =~= address::components(addr));
    assert(all.len() == peer_ids@.len());
    assert forall|i: int| 0 <= i < peer_ids@.len() implies match #[trigger] peer_ids@[i] {
        Some(p) => address::components(addr)[i] == Some(p@),
        None => address::components(addr)[i] is None,
    } by {
        assert(all[i] == address::component_bytes(peer_ids@[i]));
    }
}

/// `PeerId::from_bytes` takes a SHA-256 multihash with a digest of at most 64 bytes or an identity
/// multihash with one of at most 42, and nothing else; and the identifier, or a copy of it, gives
/// the bytes back.
pub proof fn law_bytes_of_peer_ids(
    bytes: Vec<u8>,
    id: Option<PeerId>,
    copy: PeerId,
    back: Vec<u8>,
    shown: &[u8],
)
    requires
        call_ensures(PeerId::from_bytes, (bytes,), id),
        call_ensures(PeerId::clone, (&id->0,), copy),
        call_ensures(PeerId::to_bytes, (&copy,), back),
        call_ensures(PeerId::as_bytes, (&id->0,), shown),
    ensures
        id is Some <==> bytes@.len() >= 2 && bytes@[1] == bytes@.len() - 2 && (bytes@[0] == 0x12
            && bytes@.len() <= 66 || bytes@[0] == 0x00 && bytes@.len() <= 44),
        id is Some ==> back@ == bytes@ && shown@ == bytes@,
{
}

/// A key is what the curve has a point for: 32 bytes whose low 255 bits are its `y` coordinate.
pub proof fn law_keys_are_curve_points(bytes: Seq<u8>, x: int, y: int)
    ensures
        keys::is_ed25519_key(bytes) <==> bytes.len() == 32 && exists|x: int|
            #[trigger] keys::on_curve(
                x,
                keys::little_endian(bytes)
                    % 0x8000000000000000000000000000000000000000000000000000000000000000int,
            ),
        keys::on_curve(x, y) <==> (y * y - x * x - 1
            - 0x52036cee2b6ffe738cc740797779e89800700a4d4141d8ab75eb4dca135978a3int * (x * x) * (y
            * y)) % 0x7fffffffffffffffffffffffffffffffffffffffffffffffffffffffffffffedint == 0,
{
    reveal(keys::is_ed25519_key);
}

/// `EndpointId::from_bytes` takes valid keys and nothing else, and `as_bytes` gives the key back.
pub proof fn law_bytes_of_endpoints(bytes: [u8; 32], id: Option<EndpointId>, back: &[u8; 32])
    requires
        call_ensures(EndpointId::from_bytes, (&bytes,), id),
        call_ensures(EndpointId::as_bytes, (&id->0,), back),
    ensures
        id is Some <==> keys::is_ed25519_key(bytes@),
        id is Some ==> back@ == bytes@,
{
}

/// Every 32 bytes are a secret key, which `to_bytes` gives back; a slice of another length is none.
/// The endpoint that runs under a key is a valid one, and depends on the bytes of the key alone.
pub proof fn law_bytes_of_secret_keys(
    bytes: [u8; 32],
    key: SecretKey,
    back: [u8; 32],
    slice: &[u8],
    sliced: Option<SecretKey>,
    id: EndpointId,
    other: EndpointId,
)
    requires
        call_ensures(SecretKey::from_bytes, (&bytes,), key),
        call_ensures(SecretKey::to_bytes, (&key,), back),
        call_ensures(SecretKey::from_slice, (slice,), sliced),
        call_ensures(SecretKey::public, (&key,), id),
        call_ensures(SecretKey::public, (&sliced->0,), other),
    ensures
        back@ == bytes@,
        sliced is Some <==> slice@.len() == 32,
        sliced matches Some(k) ==> k@ == slice@,
        id@ == keys::ed25519_public_key(bytes@),
        keys::is_ed25519_key(id@),
        slice@ == bytes@ && sliced is Some ==> other@ == id@,
{
}

/// `key_bytes` gives the bytes of every slice of 32 bytes, and none of any other.
pub proof fn law_key_bytes(slice: &[u8], bytes: Option<[u8; 32]>)
    requires
        call_ensures(keys::key_bytes, (slice,), bytes),
    ensures
        bytes is Some <==> slice@.len() == 32,
        bytes matches Some(b) ==> b@ == slice@,
{
}

/// An endpoint identifier is shown as each of its bytes in turn, with two hexadecimal digits, the
/// higher one first.
pub proof fn law_endpoints_are_shown(id: EndpointId, text: String)
    requires
        id@.len() == 32,
        call_ensures(EndpointId::debug_text, (&id,), text),
    ensures
        text@.len() == 75,
        text@.subrange(0, 10) == "PublicKey("@,
        text@[74] == ')',
        forall|i: int|
            0 <= i < 32 ==> text@[10 + 2 * i] == "0123456789abcdef"@[#[trigger] id@[i] as int / 16]
                && text@[11 + 2 * i] == "0123456789abcdef"@[id@[i] as int % 16],
{
    reveal_strlit("PublicKey(");
    reveal_strlit(")");
    assert(text@.subrange(0, 10) =~= "PublicKey("@);
    assert forall|i: int| 0 <= i < 32 implies text@[10 + 2 * i] == "0123456789abcdef"@[
    #[trigger] id@[i] as int / 16]
        && text@[11 + 2 * i] == "0123456789abcdef"@[id@[i] as int % 16] by {
        assert((2 * i) / 2 == i && (2 * i + 1) / 2 == i);
        assert((2 * i) % 2 == 0 && (2 * i + 1) % 2 == 1);
    }
}

/// `libp2p_keypair_to_iroh_secret` gives the secret key that the pair decodes to, for all pairs
/// that decode to one; that is the key which stands in the encoding of an Ed25519 pair.
pub proof fn law_secret_of_a_keypair(
    encoding: Vec<u8>,
    keypair: Keypair,
    shown: &[u8],
    secret: Option<SecretKey>,
    inside: Seq<u8>,
)
    requires
        call_ensures(Keypair::encoding, (&keypair,), shown),
        call_ensures(Keypair::from_protobuf_encoding, (encoding,), keypair),
        call_ensures(helper::libp2p_keypair_to_iroh_secret, (&keypair,), secret),
    ensures
        shown@ == encoding@,
        secret is Some <==> keys::ed25519_secret_of(encoding@) is Some,
        secret matches Some(s) ==> keys::ed25519_secret_of(encoding@) == Some(s@),
        inside.len() == 32 && keys::ed25519_public_key(inside).len() == 32 && encoding@ == seq![
            0x08u8,
            0x01u8,
            0x12u8,
            0x40u8,
        ] + inside + keys::ed25519_public_key(inside) ==> (secret matches Some(s) && s@ == inside),
{
    lemma_ed25519_encoding(encoding@, inside);
}

/// The encoding of an Ed25519 pair is recognised, and its secret key found.
proof fn lemma_ed25519_encoding(encoding: Seq<u8>, inside: Seq<u8>)
    ensures
        inside.len() == 32 && keys::ed25519_public_key(inside).len() == 32 && encoding == seq![
            0x08u8,
            0x01u8,
            0x12u8,
            0x40u8,
        ] + inside + keys::ed25519_public_key(inside) ==> keys::is_ed25519_encoding(encoding)
            && encoding.subrange(4, 36) == inside,
{
    let public = keys::ed25519_public_key(inside);
    let head = seq![0x08u8, 0x01u8, 0x12u8, 0x40u8];
    if inside.len() == 32 && public.len() == 32 && encoding == head + inside + public {
        assert(encoding.subrange(0, 4) =~= head);
        assert(encoding.subrange(4, 36) =~= inside);
        assert(encoding.subrange(36, 68) =~= public);
    }
}

/// `with_config` fails exactly on a key pair that decodes to no Ed25519 secret key, and with one
/// error; and it starts under the secret key in the encoding of an Ed25519 pair. Without a key
/// pair it always starts.
pub proof fn law_when_a_transport_starts<F>(
    keypair: Option<&Keypair>,
    config: TransportConfig<F>,
    started: Result<(Setup<F>, BindRequest), TransportError>,
    inside: Seq<u8>,
)
    requires
        call_ensures(Transport::<F>::with_config, (keypair, config), started),
    ensures
        started is Err <==> (keypair matches Some(k) && keys::ed25519_secret_of(k@) is None),
        started matches Err(e) ==> e@ == ErrorText::Listen(
            "Failed to convert libp2p keypair to iroh secret key"@,
        ),
        inside.len() == 32 && keys::ed25519_public_key(inside).len() == 32 && (keypair matches Some(
            k,
        ) && k@ == seq![0x08u8, 0x01u8, 0x12u8, 0x40u8] + inside + keys::ed25519_public_key(inside))
            ==> (started matches Ok(s) && s.1.secret_key@ == inside),
{
    if keypair is Some {
        lemma_ed25519_encoding(keypair->0@, inside);
    }
}

/// With a key pair or without one: the endpoint is to be bound with the configured relay mode, and
/// the transport that comes up has the configured time limit and peer filter, runs under the key
/// that was bound, which is that of the pair if there is one, and does not listen.
pub proof fn law_transport_follows_its_configuration<F>(
    keypair: Option<&Keypair>,
    config: TransportConfig<F>,
    started: Result<(Setup<F>, BindRequest), TransportError>,
    bound: EndpointId,
    transport: Result<Transport<F>, TransportError>,
)
    requires
        call_ensures(Transport::<F>::with_config, (keypair, config), started),
        started is Ok,
        call_ensures(Setup::<F>::finish, (started->Ok_0.0, Startup::Bound(bound)), transport),
    ensures
        started->Ok_0.1.relay_mode == config.relay_mode,
        started->Ok_0.1.secret_key@.len() == 32 || keypair is Some,
        keypair matches Some(k) ==> keys::ed25519_secret_of(k@) == Some(
            started->Ok_0.1.secret_key@,
        ),
        transport is Ok,
        transport->Ok_0.secret() == started->Ok_0.1.secret_key@
            && transport->Ok_0.node() == keys::ed25519_public_key(started->Ok_0.1.secret_key@)
            && transport->Ok_0.peer() == peer::ed25519_header() + transport->Ok_0.node()
            && keys::is_ed25519_key(transport->Ok_0.node())
            && transport->Ok_0.time_limit() == config.timeout@
            && transport->Ok_0.filter() == config.peer_filter
            && transport->Ok_0.local_node() == bound@ && transport->Ok_0.listener() is None
            && transport->Ok_0.handler().listener() is None && !transport->Ok_0.is_routing(),
{
}

/// `new` starts like `with_config` with the relay servers of n0, 300 seconds and no filter: it
/// fails on the same key pairs, with the same error, and the transport comes up with these.
pub proof fn law_new_has_the_defaults<F>(
    keypair: Option<&Keypair>,
    started: Result<(Setup<F>, BindRequest), TransportError>,
    bound: EndpointId,
    transport: Result<Transport<F>, TransportError>,
)
    requires
        call_ensures(Transport::<F>::new, (keypair,), started),
        started is Ok ==> call_ensures(
            Setup::<F>::finish,
            (started->Ok_0.0, Startup::Bound(bound)),
            transport,
        ),
    ensures
        started is Err <==> (keypair matches Some(k) && keys::ed25519_secret_of(k@) is None),
        started matches Err(e) ==> e@ == ErrorText::Listen(
            "Failed to convert libp2p keypair to iroh secret key"@,
        ),
        started matches Ok(s) ==> s.1.relay_mode == RelayMode::Default,
        started matches Ok(s) ==> (keypair matches Some(k) ==> keys::ed25519_secret_of(k@) == Some(
            s.1.secret_key@,
        )),
        started matches Ok(s) ==> (transport matches Ok(t) && t.secret() == s.1.secret_key@
            && t.node() == keys::ed25519_public_key(s.1.secret_key@)
            && t.peer() == peer::ed25519_header() + t.node()
            && keys::is_ed25519_key(t.node()) && t.time_limit() == 300_000_000_000
            && t.filter() is None && t.local_node() == bound@ && t.listener() is None
            && t.handler().listener() is None && !t.is_routing()),
{
}

/// A start under the identity of a secret key, or of a key pair, is one with that key, and with the
/// given configuration.
pub proof fn law_identity_starts_as_configured<F>(
    secret_key: SecretKey,
    identity: Identity,
    keypair: Keypair,
    of_keypair: Result<Identity, TransportError>,
    config: TransportConfig<F>,
    started: (Setup<F>, BindRequest),
    bound: EndpointId,
    transport: Result<Transport<F>, TransportError>,
)
    requires
        call_ensures(Identity::from_secret, (secret_key,), identity),
        call_ensures(Identity::from_keypair, (&keypair,), of_keypair),
        call_ensures(Transport::<F>::with_identity, (identity, config), started),
        call_ensures(Setup::<F>::finish, (started.0, Startup::Bound(bound)), transport),
    ensures
        started.1.relay_mode == config.relay_mode,
        started.1.secret_key@ == secret_key@,
        transport matches Ok(t) && t.secret() == secret_key@
            && t.node() == keys::ed25519_public_key(secret_key@)
            && t.peer() == peer::ed25519_header() + t.node()
            && keys::is_ed25519_key(t.node()) && t.time_limit() == config.timeout@
            && t.filter() == config.peer_filter && t.local_node() == bound@
            && t.listener() is None && t.handler().listener() is None && !t.is_routing(),
        match of_keypair {
            Ok(i) => keys::ed25519_secret_of(keypair@) == Some(i.secret()) && i.node()
                == keys::ed25519_public_key(i.secret())
                    && i.peer() == peer::ed25519_header() + i.node(),
            Err(e) => keys::ed25519_secret_of(keypair@) is None && e@ == ErrorText::Listen(
                "Failed to convert libp2p keypair to iroh secret key"@,
            ),
        },
        identity.secret() == secret_key@,
        identity.node() == keys::ed25519_public_key(secret_key@),
        identity.peer() == peer::ed25519_header() + identity.node(),
{
}

/// Where no endpoint comes up there is no transport, and the two errors tell why.
pub proof fn law_startup_errors<F>(
    setup: Setup<F>,
    failed: Result<Transport<F>, TransportError>,
    lost: Result<Transport<F>, TransportError>,
)
    requires
        call_ensures(Setup::<F>::finish, (setup, Startup::BindFailed), failed),
        call_ensures(Setup::<F>::finish, (setup, Startup::Lost), lost),
    ensures
        failed matches Err(e) && e@ == ErrorText::Listen("Failed to initialize iroh endpoint"@),
        lost matches Err(e) && e@ == ErrorText::Listen(
            "Failed to receive transport from initialization"@,
        ),
{
}

/// What a transport hands out of itself is what it has: its names, which belong together, its time
/// limit, and the handler with its filter, listener and endpoint.
pub proof fn law_transport_shows_what_it_has<F>(
    transport: Transport<F>,
    node_id: EndpointId,
    peer_id: &PeerId,
    timeout: Timeout,
    handler: &Protocol<F>,
    filter: Option<&F>,
    listener_id: Option<Listener>,
    local_node_id: EndpointId,
)
    requires
        transport.handler().listener() == transport.listener(),
        call_ensures(Transport::<F>::node_id, (&transport,), node_id),
        call_ensures(Transport::<F>::peer_id, (&transport,), peer_id),
        call_ensures(Transport::<F>::timeout, (&transport,), timeout),
        call_ensures(Transport::<F>::protocol, (&transport,), handler),
        call_ensures(Protocol::<F>::peer_filter, (handler,), filter),
        call_ensures(Protocol::<F>::listener_id, (handler,), listener_id),
        call_ensures(Protocol::<F>::local_node_id, (handler,), local_node_id),
    ensures
        node_id@ == transport.node(),
        node_id@ == keys::ed25519_public_key(transport.secret()),
        peer_id@ == transport.peer(),
        peer_id@ == peer::ed25519_header() + node_id@,
        timeout@ == transport.time_limit(),
        match transport.filter() {
            Some(f) => filter matches Some(g) && *g == f,
            None => filter is None,
        },
        listener_id == transport.listener(),
        local_node_id@ == transport.local_node(),
{
}

/// A new handler has the endpoint and the filter that it was given, and no listener.
pub proof fn law_new_handler<F>(
    local: EndpointId,
    filter: Option<F>,
    handler: Protocol<F>,
    shown_filter: Option<&F>,
    listener_id: Option<Listener>,
    local_node_id: EndpointId,
)
    requires
        call_ensures(Protocol::<F>::new, (local, filter), handler),
        call_ensures(Protocol::<F>::peer_filter, (&handler,), shown_filter),
        call_ensures(Protocol::<F>::listener_id, (&handler,), listener_id),
        call_ensures(Protocol::<F>::local_node_id, (&handler,), local_node_id),
    ensures
        handler.filter() == filter,
        match filter {
            Some(f) => shown_filter matches Some(g) && *g == f,
            None => shown_filter is None,
        },
        listener_id is None,
        local_node_id@ == local@,
{
}

/// `decide` rejects a connection exactly if the filter has refused it, fails exactly if it has not
/// and there is no listener, and else announces it. A rejection has one code, reason and error; so
/// has a failure.
pub proof fn law_what_becomes_of_a_connection<F>(
    handler: Protocol<F>,
    verdict: Option<bool>,
    remote: EndpointId,
    acceptance: Acceptance,
)
    requires
        call_ensures(Protocol::<F>::decide, (&handler, verdict, &remote), acceptance),
    ensures
        acceptance is Reject <==> verdict == Some(false),
        acceptance is Fail <==> verdict != Some(false) && handler.listener() is None,
        acceptance is Announce <==> verdict != Some(false) && handler.listener() is Some,
        acceptance matches Acceptance::Reject { code, reason, error } ==> code == 1 && reason@
            == "rejected by peer filter"@ && error@ == ErrorText::Listen(
            "Peer rejected by filter"@,
        ),
        acceptance matches Acceptance::Fail(error) ==> error@ == ErrorText::Listen(
            "Listener ID should be set"@,
        ),
{
}

/// An announced connection carries the peer identifier of the remote endpoint, the listener, and
/// two addresses: the one to send back to consists of that very peer identifier alone, and the
/// local one of the peer identifier of the local endpoint alone.
pub proof fn law_announced_connections<F>(
    handler: Protocol<F>,
    verdict: Option<bool>,
    remote: EndpointId,
    acceptance: Acceptance,
)
    requires
        call_ensures(Protocol::<F>::decide, (&handler, verdict, &remote), acceptance),
    ensures
        acceptance matches Acceptance::Announce(event) ==> (event matches TransportEvent::Incoming {
            listener_id,
            peer_id,
            local_addr,
            send_back_addr,
        } && handler.listener() == Some(listener_id)
            && peer_id@ == peer::ed25519_header() + remote@
            && address::components(send_back_addr) == seq![Some(peer_id@)] && address::components(
            local_addr,
        ) == seq![Some(peer::ed25519_header() + handler.local_node())]),
{
}

/// Who dials back the address of an announced connection is led to the remote endpoint, and
/// connected to it is told the very peer identifier that was announced.
pub proof fn law_dialing_back<F, G>(
    handler: Protocol<F>,
    verdict: Option<bool>,
    remote: EndpointId,
    listener_id: Listener,
    peer_id: PeerId,
    local_addr: Multiaddr,
    send_back_addr: Multiaddr,
    transport: Transport<G>,
    dialing: Result<Dialing, TransportError>,
    reached: Result<PeerId, TransportError>,
)
    requires
        keys::is_ed25519_key(remote@),
        call_ensures(
            Protocol::<F>::decide,
            (&handler, verdict, &remote),
            Acceptance::Announce(
                TransportEvent::Incoming { listener_id, peer_id, local_addr, send_back_addr },
            ),
        ),
        call_ensures(Transport::<G>::dial, (&transport, &send_back_addr), dialing),
        call_ensures(
            Dialing::finish,
            (&dialing->Ok_0, Connect::Connected(dialing->Ok_0.node_id)),
            reached,
        ),
    ensures
        dialing matches Ok(d) && d.node_id@ == remote@,
        reached matches Ok(p) && p@ == peer_id@,
{
    law_node_peer_node(remote@);
}

/// `accept` lets the filter decide, and nothing else: a connection is rejected only if the filter
/// can refuse it, and not rejected only if there is no filter or the filter can accept it; what is
/// not rejected is announced, under the listener and with the names of both ends, exactly while
/// there is a listener.
pub proof fn law_filter_decides<F: Fn(&EndpointId) -> bool>(
    handler: Protocol<F>,
    remote: &EndpointId,
    acceptance: Acceptance,
)
    requires
        call_ensures(Protocol::<F>::accept, (&handler, remote), acceptance),
    ensures
        acceptance is Reject ==> (handler.filter() matches Some(f) && call_ensures(
            f,
            (remote,),
            false,
        )),
        !(acceptance is Reject) ==> (handler.filter() matches Some(f) ==> call_ensures(
            f,
            (remote,),
            true,
        )),
        acceptance is Announce ==> handler.listener() is Some,
        acceptance is Fail ==> handler.listener() is None,
        acceptance matches Acceptance::Reject { code, reason, error } ==> code == 1 && reason@
            == "rejected by peer filter"@ && error@ == ErrorText::Listen(
            "Peer rejected by filter"@,
        ),
        acceptance matches Acceptance::Fail(error) ==> error@ == ErrorText::Listen(
            "Listener ID should be set"@,
        ),
        acceptance matches Acceptance::Announce(event) ==> (event matches TransportEvent::Incoming {
            listener_id,
            peer_id,
            local_addr,
            send_back_addr,
        } && handler.listener() == Some(listener_id)
            && peer_id@ == peer::ed25519_header() + remote@
            && address::components(send_back_addr) == seq![Some(peer_id@)] && address::components(
            local_addr,
        ) == seq![Some(peer::ed25519_header() + handler.local_node())]),
{
    let verdict = choose|verdict: Option<bool>|
        protocol::is_verdict(handler.filter(), remote, verdict)
            && #[trigger] protocol::is_acceptance(
            handler,
            verdict,
            remote@,
            acceptance,
        );
    assert(verdict matches Some(true) || verdict matches Some(false) || verdict is None);
}

/// The filter of the configuration decides on connections to the transport that comes up, and the
/// time limit of the configuration is that of its dial attempts.
pub proof fn law_configuration_takes_effect<F: Fn(&EndpointId) -> bool>(
    keypair: Option<&Keypair>,
    config: TransportConfig<F>,
    started: Result<(Setup<F>, BindRequest), TransportError>,
    bound: EndpointId,
    transport: Result<Transport<F>, TransportError>,
    handler: &Protocol<F>,
    remote: &EndpointId,
    acceptance: Acceptance,
    addr: Multiaddr,
    dialing: Result<Dialing, TransportError>,
)
    requires
        call_ensures(Transport::<F>::with_config, (keypair, config), started),
        started is Ok,
        call_ensures(Setup::<F>::finish, (started->Ok_0.0, Startup::Bound(bound)), transport),
        call_ensures(Transport::<F>::protocol, (&transport->Ok_0,), handler),
        call_ensures(Protocol::<F>::accept, (handler, remote), acceptance),
        call_ensures(Transport::<F>::dial, (&transport->Ok_0, &addr), dialing),
    ensures
        acceptance is Reject ==> (config.peer_filter matches Some(f) && call_ensures(
            f,
            (remote,),
            false,
        )),
        !(acceptance is Reject) ==> (config.peer_filter matches Some(f) ==> call_ensures(
            f,
            (remote,),
            true,
        )),
        dialing matches Ok(d) ==> d.timeout@ == config.timeout@,
{
    law_filter_decides(*handler, remote, acceptance);
}

/// `verdict` is the answer of the filter, and none exactly without a filter.
pub proof fn law_verdict_is_the_answer<F: Fn(&EndpointId) -> bool>(
    filter: Option<&F>,
    remote: &EndpointId,
    verdict: Option<bool>,
)
    requires
        call_ensures(Protocol::<F>::verdict, (filter, remote), verdict),
    ensures
        verdict is Some <==> filter is Some,
        verdict matches Some(accepted) ==> call_ensures(*filter->0, (remote,), accepted),
{
}

/// An event that the swarm was told of is no error, and one that it could not be told of is an
/// error in listening, with the text of what went wrong.
pub proof fn law_undelivered_events<F>(
    sent: Result<(), String>,
    delivered: Result<(), TransportError>,
    announced: Result<(), TransportError>,
)
    requires
        call_ensures(Protocol::<F>::delivered, (sent,), delivered),
        call_ensures(Transport::<F>::announced, (sent,), announced),
    ensures
        delivered is Ok <==> sent is Ok,
        announced is Ok <==> sent is Ok,
        sent matches Err(text) ==> (delivered matches Err(e) && e@ == ErrorText::Listen(text@)),
        sent matches Err(text) ==> (announced matches Err(e) && e@ == ErrorText::Listen(
            "Failed to send NewAddress event: "@ + text@,
        )),
{
}

/// `listen_on` fails exactly if there is a listener, and then changes nothing. Else the transport
/// listens for `id`, and its handler too, with all else unchanged; and the address that it
/// announces consists of the transport's own peer identifier alone.
pub proof fn law_listening<F>(
    transport: &mut Transport<F>,
    id: Listener,
    event: Result<TransportEvent, TransportError>,
)
    requires
        old(transport).peer() == peer::ed25519_header() + old(transport).node(),
        call_ensures(Transport::<F>::listen_on, (transport, id), event),
    ensures
        event is Err <==> old(transport).listener() is Some,
        event matches Err(e) ==> e@ == ErrorText::Listen(
            "Listener already exists for this transport"@,
        ) && *final(transport) == *old(transport),
        event matches Ok(ev) ==> (ev matches TransportEvent::NewAddress { listener_id, listen_addr }
            && listener_id == id && address::components(listen_addr) == seq![
            Some(old(transport).peer()),
        ]
            && address::components(listen_addr) == seq![
            Some(peer::ed25519_header() + old(transport).node()),
        ]),
        event is Ok ==> final(transport).listener() == Some(id)
            && final(transport).handler().listener() == Some(id)
            && final(transport).is_routing()
            && final(transport).secret() == old(transport).secret()
            && final(transport).node() == old(transport).node()
            && final(transport).peer() == old(transport).peer()
            && final(transport).filter() == old(transport).filter()
            && final(transport).local_node() == old(transport).local_node()
            && final(transport).time_limit() == old(transport).time_limit(),
        old(transport).wf() ==> final(transport).wf(),
{
}

/// `remove_listener` tells whether `id` was the listener. If so the transport listens no more, nor
/// does its handler, with all else unchanged; and if not nothing changes.
pub proof fn law_removing<F>(transport: &mut Transport<F>, id: Listener, removed: bool)
    requires
        call_ensures(Transport::<F>::remove_listener, (transport, id), removed),
    ensures
        removed <==> old(transport).listener() == Some(id),
        removed ==> final(transport).listener() is None
            && final(transport).handler().listener() is None && !final(transport).is_routing()
            && final(transport).secret() == old(transport).secret()
            && final(transport).node() == old(transport).node()
            && final(transport).peer() == old(transport).peer()
            && final(transport).filter() == old(transport).filter()
            && final(transport).local_node() == old(transport).local_node()
            && final(transport).time_limit() == old(transport).time_limit(),
        !removed ==> *final(transport) == *old(transport),
        old(transport).wf() ==> final(transport).wf(),
{
}

/// A listener that was added can be removed, once, and then another can be added.
pub proof fn law_listeners_come_and_go<F>(
    first: &mut Transport<F>,
    second: &mut Transport<F>,
    third: &mut Transport<F>,
    fourth: &mut Transport<F>,
    id: Listener,
    other: Listener,
    added: Result<TransportEvent, TransportError>,
    removed: bool,
    again: bool,
    anew: Result<TransportEvent, TransportError>,
)
    requires
        call_ensures(Transport::<F>::listen_on, (first, id), added),
        added is Ok,
        *old(second) == *final(first),
        call_ensures(Transport::<F>::remove_listener, (second, id), removed),
        *old(third) == *final(second),
        call_ensures(Transport::<F>::remove_listener, (third, id), again),
        *old(fourth) == *final(third),
        call_ensures(Transport::<F>::listen_on, (fourth, other), anew),
    ensures
        removed,
        !again,
        anew is Ok,
{
}

/// While a transport listens for `id`, a connection that is not refused is announced under `id`
/// and with the transport's endpoint as the local one; once `id` is removed it fails.
pub proof fn law_connections_while_listening<F>(
    first: &mut Transport<F>,
    second: &mut Transport<F>,
    id: Listener,
    event: TransportEvent,
    removed: bool,
    handler: &Protocol<F>,
    stopped: &Protocol<F>,
    verdict: Option<bool>,
    remote: EndpointId,
    acceptance: Acceptance,
    late: Acceptance,
)
    requires
        verdict != Some(false),
        call_ensures(Transport::<F>::listen_on, (first, id), Ok(event)),
        call_ensures(Transport::<F>::protocol, (&*final(first),), handler),
        call_ensures(Protocol::<F>::decide, (handler, verdict, &remote), acceptance),
        *old(second) == *final(first),
        call_ensures(Transport::<F>::remove_listener, (second, id), removed),
        call_ensures(Transport::<F>::protocol, (&*final(second),), stopped),
        call_ensures(Protocol::<F>::decide, (stopped, verdict, &remote), late),
    ensures
        acceptance matches Acceptance::Announce(ev) && (ev matches TransportEvent::Incoming {
            listener_id,
            peer_id,
            local_addr,
            send_back_addr,
        } && listener_id == id
            && peer_id@ == peer::ed25519_header() + remote@
            && address::components(local_addr)
            == seq![Some(peer::ed25519_header() + old(first).local_node())]),
        late is Fail,
{
}

/// Once the time limit is set, the transport has that limit, shows it, and hands it out with
/// whatever is dialed; nothing else has changed.
pub proof fn law_setting_the_time_limit<F>(
    transport: &mut Transport<F>,
    timeout: Timeout,
    shown: Timeout,
    addr: Multiaddr,
    dialing: Result<Dialing, TransportError>,
)
    requires
        call_ensures(Transport::<F>::set_timeout, (transport, timeout), ()),
        call_ensures(Transport::<F>::timeout, (&*final(transport),), shown),
        call_ensures(Transport::<F>::dial, (&*final(transport), &addr), dialing),
    ensures
        final(transport).time_limit() == timeout@,
        shown@ == timeout@,
        dialing matches Ok(d) ==> d.timeout@ == timeout@,
        final(transport).secret() == old(transport).secret()
            && final(transport).node() == old(transport).node()
            && final(transport).peer() == old(transport).peer()
            && final(transport).filter() == old(transport).filter()
            && final(transport).local_node() == old(transport).local_node(),
        final(transport).listener() == old(transport).listener(),
        final(transport).handler() == old(transport).handler(),
        final(transport).is_routing() == old(transport).is_routing(),
{
}

/// `dial` leads to the endpoint that `multiaddr_to_iroh_node_id` finds in the address, within the
/// transport's time limit, and fails, with one error, exactly if that finds none.
pub proof fn law_dialing<F>(
    transport: Transport<F>,
    addr: Multiaddr,
    found: Option<EndpointId>,
    timeout: Timeout,
    dialing: Result<Dialing, TransportError>,
)
    requires
        call_ensures(helper::multiaddr_to_iroh_node_id, (&addr,), found),
        call_ensures(Transport::<F>::timeout, (&transport,), timeout),
        call_ensures(Transport::<F>::dial, (&transport, &addr), dialing),
    ensures
        dialing is Ok <==> found is Some,
        dialing matches Ok(d) ==> d.node_id@ == found->0@ && d.timeout@ == timeout@,
        dialing matches Err(e) ==> e@ == ErrorText::Dial(
            "Failed to extract iroh EndpointId from multiaddr"@,
        ),
{
}

/// Who dials the address that a transport announces is led to its endpoint, within the dialer's
/// own time limit, and connected to it is told its peer identifier.
pub proof fn law_dialing_a_listener<F, G>(
    listener: &mut Transport<F>,
    id: Listener,
    listener_id: Listener,
    listen_addr: Multiaddr,
    dialer: Transport<G>,
    dialing: Result<Dialing, TransportError>,
    reached: Result<PeerId, TransportError>,
)
    requires
        keys::is_ed25519_key(old(listener).node()),
        old(listener).peer() == peer::ed25519_header() + old(listener).node(),
        call_ensures(
            Transport::<F>::listen_on,
            (listener, id),
            Ok(TransportEvent::NewAddress { listener_id, listen_addr }),
        ),
        call_ensures(Transport::<G>::dial, (&dialer, &listen_addr), dialing),
        call_ensures(
            Dialing::finish,
            (&dialing->Ok_0, Connect::Connected(dialing->Ok_0.node_id)),
            reached,
        ),
    ensures
        dialing matches Ok(d) && d.node_id@ == old(listener).node() && d.timeout@
            == dialer.time_limit(),
        reached matches Ok(p) && p@ == old(listener).peer(),
{
    law_node_peer_node(old(listener).node());
}

/// A connection attempt leads to the peer at its other end, and to none exactly if there is no
/// connection; the error then tells the time that was allowed, or the reason.
pub proof fn law_connection_attempts(
    dialing: Dialing,
    remote: EndpointId,
    reason: String,
    connected: Result<PeerId, TransportError>,
    timed_out: Result<PeerId, TransportError>,
    failed: Result<PeerId, TransportError>,
)
    requires
        call_ensures(Dialing::finish, (&dialing, Connect::Connected(remote)), connected),
        call_ensures(Dialing::finish, (&dialing, Connect::TimedOut), timed_out),
        call_ensures(Dialing::finish, (&dialing, Connect::Failed(reason)), failed),
    ensures
        connected matches Ok(p)
            && p@ == peer::ed25519_header() + remote@,
        timed_out matches Err(e) && e@ == ErrorText::Dial(
            "Connection timed out after "@ + config::duration_text(dialing.timeout@),
        ),
        failed matches Err(e) && e@ == ErrorText::Dial(reason@),
{
}

/// `poll` hands out every event that has come in, unchanged, and nothing else.
pub proof fn law_polling<F, E>(received: Received<E>, event: Option<E>)
    requires
        call_ensures(Transport::<F>::poll::<E>, (received,), event),
    ensures
        event is Some <==> received is Event,
        received matches Received::Event(e) ==> event == Some(e),
{
}

/// Connections are opened and accepted under one and the same name.
pub proof fn law_one_protocol_name<F>(
    transport: Transport<F>,
    dialing: Dialing,
    accepted: &'static str,
    opened: &'static str,
)
    requires
        call_ensures(Transport::<F>::alpn, (&transport,), accepted),
        call_ensures(Dialing::alpn, (&dialing,), opened),
    ensures
        accepted@ == opened@,
        opened@ == "/iroh/libp2p-transport/0.1.0"@,
        Protocol::<F>::ALPN@ == opened@,
{
}

/// An error keeps its kind and its text, also in a copy, and is shown with both. One made of a
/// plain text is one in listening.
pub proof fn law_errors_keep_kind_and_text(
    text: String,
    dial: TransportError,
    dial_kind: &TransportErrorKind,
    dial_text: String,
    listen: TransportError,
    listen_copy: TransportError,
    listen_kind: &TransportErrorKind,
    listen_text: String,
    plain: &str,
    from_plain: TransportError,
    late: TransportError,
)
    requires
        call_ensures(TransportError::dial, (text,), dial),
        call_ensures(TransportError::kind, (&dial,), dial_kind),
        call_ensures(TransportError::to_string, (&dial,), dial_text),
        call_ensures(TransportError::listen, (text,), listen),
        call_ensures(TransportError::clone, (&listen,), listen_copy),
        call_ensures(TransportError::kind, (&listen_copy,), listen_kind),
        call_ensures(TransportError::to_string, (&listen,), listen_text),
        call_ensures(<TransportError as From<&str>>::from, (plain,), from_plain),
        call_ensures(crate::transport::timed_out, (text,), late),
    ensures
        dial_kind matches TransportErrorKind::Dial(t) && t@ == text@,
        listen_kind matches TransportErrorKind::Listen(t) && t@ == text@,
        dial_text@ == "TransportError: Dial("@ + error::quoted(text@) + ")"@,
        listen_text@ == "TransportError: Listen("@ + error::quoted(text@) + ")"@,
        from_plain@ == ErrorText::Listen(plain@),
        plain@ == text@ ==> from_plain@ == listen@,
        late@ == ErrorText::Dial("Connection timed out after "@ + text@),
{
}

/// A time limit keeps its seconds and nanoseconds, counts them together, and is shown as the
/// duration that it is.
pub proof fn law_time_limits(
    secs: u64,
    nanos: u32,
    timeout: Option<Timeout>,
    whole: Timeout,
    back_secs: u64,
    back_nanos: u32,
    text: String,
)
    requires
        call_ensures(Timeout::new, (secs, nanos), timeout),
        call_ensures(Timeout::from_secs, (secs,), whole),
        call_ensures(Timeout::as_secs, (&timeout->0,), back_secs),
        call_ensures(Timeout::subsec_nanos, (&timeout->0,), back_nanos),
        call_ensures(Timeout::debug_text, (&timeout->0,), text),
    ensures
        timeout is Some <==> nanos < 1_000_000_000,
        timeout is Some ==> back_secs == secs && back_nanos == nanos && text@
            == config::duration_text((secs * 1_000_000_000 + nanos) as nat),
        timeout is Some && nanos == 0 ==> timeout->0@ == whole@,
        whole@ == secs * 1_000_000_000,
{
}

/// The default configuration has the relay servers of n0, 300 seconds and no filter.
pub proof fn law_default_configuration<F>(config: TransportConfig<F>)
    requires
        call_ensures(TransportConfig::<F>::default, (), config),
    ensures
        config.relay_mode == RelayMode::Default,
        config.timeout@ == 300_000_000_000,
        config.peer_filter is None,
{
}

/// A configuration is shown with its three fields; `custom` shows only where there is a map.
pub proof fn law_configurations_are_shown<F>(
    config: TransportConfig<F>,
    custom: String,
    text: String,
    unaided: String,
)
    requires
        call_ensures(TransportConfig::<F>::debug_text_with, (&config, custom), text),
        call_ensures(TransportConfig::<F>::debug_text, (&config,), unaided),
    ensures
        ({
            let mode = match config.relay_mode {
                RelayMode::Disabled => "Disabled"@,
                RelayMode::Default => "Default"@,
                RelayMode::Staging => "Staging"@,
                RelayMode::Custom(_) => "Custom("@ + custom@ + ")"@,
            };
            let filter = if config.peer_filter is Some {
                "Some("@ + error::quoted("Some(<fn>)"@) + ")"@
            } else {
                "None"@
            };
            text@ == "TransportConfig { relay_mode: "@ + error::quoted(mode) + ", timeout: "@
                + config::duration_text(config.timeout@) + ", peer_filter: "@ + filter + " }"@
        }),
        !(config.relay_mode is Custom) ==> unaided@ == text@,
{
}

/// A handler is shown with its three fields.
pub proof fn law_handlers_are_shown<F>(handler: Protocol<F>, listener: String, text: String)
    requires
        call_ensures(Protocol::<F>::debug_text, (&handler, listener), text),
    ensures
        ({
            let filter = if handler.filter() is Some {
                "Some("@ + error::quoted("<fn>"@) + ")"@
            } else {
                "None"@
            };
            text@ == "Protocol { peer_filter: "@ + filter + ", shared_listener_id: "@ + listener@
                + ", local_node_id: "@ + keys::endpoint_text(handler.local_node()) + " }"@
        }),
{
}

} // verus!
