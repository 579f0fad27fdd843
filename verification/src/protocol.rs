//! The accepting side of the transport: what becomes of an incoming connection.

use vstd::prelude::*;
use vstd::string::StringExecFns;

use libp2p::Multiaddr;

use crate::address;
use crate::error;
use crate::error::{ErrorText, TransportError};
use crate::helper;
use crate::keys;
use crate::keys::EndpointId;
use crate::peer;
use crate::peer::PeerId;

verus! {

/// The identifier that libp2p gives to a listener.
#[verifier::external_type_specification]
#[verifier::external_body]
pub struct ExListenerId(libp2p::core::transport::ListenerId);

/// The identifier of a listener.
pub type Listener = libp2p::core::transport::ListenerId;

/// What the transport tells the swarm.
pub enum TransportEvent {
    /// The transport listens on a new address.
    NewAddress { listener_id: Listener, listen_addr: Multiaddr },
    /// A connection from `peer_id` has come in.
    Incoming {
        listener_id: Listener,
        peer_id: PeerId,
        local_addr: Multiaddr,
        send_back_addr: Multiaddr,
    },
}

/// What is to be done with an incoming connection.
pub enum Acceptance {
    /// Tell the swarm of it.
    Announce(TransportEvent),
    /// Close it with the given code and reason, and fail with the error.
    Reject { code: u32, reason: String, error: TransportError },
    /// Fail with the error.
    Fail(TransportError),
}

/// The handler of incoming connections. `F` is the type of the peer filter.
pub struct Protocol<F> {
    peer_filter: Option<F>,
    listener_id: Option<Listener>,
    local_node_id: EndpointId,
}

/// `addr` is the address of the endpoint `node`: the `/p2p/` component of its peer identifier,
/// and nothing else.
pub open spec fn is_address_of(addr: Multiaddr, node: Seq<u8>) -> bool {
    address::components(addr) == seq![Some(peer::ed25519_peer_id(node))]
}

/// `acceptance` is what becomes of a connection from `remote` at `protocol`, where the peer
/// filter, if there is one, gave the answer `verdict`.
pub open spec fn is_acceptance<F>(
    protocol: Protocol<F>,
    verdict: Option<bool>,
    remote: Seq<u8>,
    acceptance: Acceptance,
) -> bool {
    if verdict == Some(false) {
        acceptance matches Acceptance::Reject { code, reason, error } && code == 1 && reason@
            == "rejected by peer filter"@ && error@ == ErrorText::Listen("Peer rejected by filter"@)
    } else {
        match protocol.listener() {
            None => acceptance matches Acceptance::Fail(error) && error@ == ErrorText::Listen(
                "Listener ID should be set"@,
            ),
            Some(id) => acceptance matches Acceptance::Announce(
                TransportEvent::Incoming { listener_id, peer_id, local_addr, send_back_addr },
            ) && listener_id == id && peer_id@ == peer::ed25519_peer_id(remote) && is_address_of(
                local_addr,
                protocol.local_node(),
            ) && is_address_of(send_back_addr, remote),
        }
    }
}

/// `verdict` is an answer that the peer filter can give on `remote`: none if there is no filter.
pub open spec fn is_verdict<F: Fn(&EndpointId) -> bool>(
    filter: Option<F>,
    remote: &EndpointId,
    verdict: Option<bool>,
) -> bool {
    match filter {
        None => verdict is None,
        Some(f) => verdict matches Some(accepted) && call_ensures(f, (remote,), accepted),
    }
}

/// How a handler is shown, where `listener` shows the listener in the form in which it is shared.
/// The filter is a function, of which only the presence can be shown.
pub open spec fn protocol_text<F>(protocol: Protocol<F>, listener: Seq<char>) -> Seq<char> {
    "Protocol { peer_filter: "@ + (if protocol.filter() is Some {
        "Some("@ + error::quoted("<fn>"@) + ")"@
    } else {
        "None"@
    }) + ", shared_listener_id: "@ + listener + ", local_node_id: "@ + keys::endpoint_text(
        protocol.local_node(),
    ) + " }"@
}

impl<F> Protocol<F> {
    /// The name under which the two sides of a connection know the protocol.
    pub const ALPN: &'static str = "/iroh/libp2p-transport/0.1.0";

    /// The peer filter.
    pub closed spec fn filter(self) -> Option<F> {
        self.peer_filter
    }

    /// The listener that incoming connections belong to.
    pub closed spec fn listener(self) -> Option<Listener> {
        self.listener_id
    }

    /// The endpoint at which connections come in.
    pub closed spec fn local_node(self) -> Seq<u8> {
        self.local_node_id@
    }

    /// A handler at the given endpoint, for no listener yet.
    pub fn new(local_node_id: EndpointId, peer_filter: Option<F>) -> (protocol: Self)
        ensures
            protocol.filter() == peer_filter,
            protocol.listener() is None,
            protocol.local_node() == local_node_id@,
    {
        Protocol { peer_filter, listener_id: None, local_node_id }
    }

    /// The peer filter.
    pub fn peer_filter(&self) -> (peer_filter: Option<&F>)
        ensures
            match self.filter() {
                Some(filter) => peer_filter matches Some(f) && *f == filter,
                None => peer_filter is None,
            },
    {
        self.peer_filter.as_ref()
    }

    /// The listener that incoming connections belong to.
    pub fn listener_id(&self) -> (listener_id: Option<Listener>)
        ensures
            listener_id == self.listener(),
    {
        self.listener_id
    }

    /// The endpoint at which connections come in.
    pub fn local_node_id(&self) -> (local_node_id: EndpointId)
        ensures
            local_node_id@ == self.local_node(),
    {
        self.local_node_id
    }

    /// The handler as it is shown to a developer, where `listener` shows the listener in the form
    /// in which it is shared.
    pub fn debug_text(&self, listener: String) -> (text: String)
        ensures
            text@ == protocol_text(*self, listener@),
    {
        let peer_filter = match &self.peer_filter {
            Some(_) => error::show("Some(", error::std_quoted("<fn>")),
            None => String::from_str("None"),
        };
        String::from_str("Protocol { peer_filter: ").concat(peer_filter.as_str()).concat(
            ", shared_listener_id: ",
        ).concat(listener.as_str()).concat(", local_node_id: ").concat(
            self.local_node_id.debug_text().as_str(),
        ).concat(" }")
    }

    /// Lets incoming connections belong to the given listener, or to none.
    pub(crate) fn set_listener(&mut self, listener_id: Option<Listener>)
        ensures
            final(self).filter() == old(self).filter(),
            final(self).listener() == listener_id,
            final(self).local_node() == old(self).local_node(),
        no_unwind
    {
        self.listener_id = listener_id;
    }

    /// Decides on a connection from `remote`, where the peer filter, if there is one, gave the
    /// answer `verdict`.
    pub fn decide(&self, verdict: Option<bool>, remote: &EndpointId) -> (acceptance: Acceptance)
        ensures
            is_acceptance(*self, verdict, remote@, acceptance),
    {
        if let Some(accepted) = verdict {
            if !accepted {
                return Acceptance::Reject {
                    code: 1,
                    reason: "rejected by peer filter".to_owned(),
                    error: TransportError::from("Peer rejected by filter"),
                };
            }
        }
        let peer_id = match helper::node_id_to_peerid(remote) {
            Some(peer_id) => peer_id,
            None => {
                return Acceptance::Fail(
                    TransportError::from("Failed to convert EndpointId to PeerId"),
                );
            },
        };
        let send_back_addr = helper::iroh_node_id_to_multiaddr(remote);
        let local_addr = helper::iroh_node_id_to_multiaddr(&self.local_node_id);
        match self.listener_id {
            Some(listener_id) => Acceptance::Announce(
                TransportEvent::Incoming { listener_id, peer_id, local_addr, send_back_addr },
            ),
            None => Acceptance::Fail(TransportError::from("Listener ID should be set")),
        }
    }

    /// What the handler reports once the swarm has, or has not, been told of a connection.
    pub fn delivered(sent: Result<(), String>) -> (outcome: Result<(), TransportError>)
        ensures
            match sent {
                Ok(_) => outcome is Ok,
                Err(text) => outcome matches Err(error) && error@ == ErrorText::Listen(text@),
            },
    {
        match sent {
            Ok(_) => Ok(()),
            Err(text) => Err(TransportError::from(text.as_str())),
        }
    }
}

impl<F: Fn(&EndpointId) -> bool> Protocol<F> {
    /// What the peer filter, if there is one, says of `remote`.
    pub fn verdict(peer_filter: Option<&F>, remote: &EndpointId) -> (verdict: Option<bool>)
        requires
            peer_filter matches Some(f) ==> call_requires(*f, (remote,)),
        ensures
            match peer_filter {
                None => verdict is None,
                Some(f) => verdict matches Some(accepted) && call_ensures(*f, (remote,), accepted),
            },
    {
        match peer_filter {
            Some(filter) => Some(filter(remote)),
            None => None,
        }
    }

    /// Asks the peer filter, if there is one, and decides on a connection from `remote`.
    pub fn accept(&self, remote: &EndpointId) -> (acceptance: Acceptance)
        requires
            self.filter() matches Some(f) ==> call_requires(f, (remote,)),
        ensures
            exists|verdict: Option<bool>|
                is_verdict(self.filter(), remote, verdict) && #[trigger] is_acceptance(
                    *self,
                    verdict,
                    remote@,
                    acceptance,
                ),
    {
        let verdict = Self::verdict(self.peer_filter(), remote);
        assert(is_verdict(self.filter(), remote, verdict));
        self.decide(verdict, remote)
    }
}

} // verus!
