//! The transport: how it comes up, listens and dials. What has to wait for the network is not
//! done here: a function hands out what is to be done, and another takes what came of it.

use vstd::prelude::*;
use vstd::string::StringExecFns;

use libp2p::Multiaddr;

use crate::address;
use crate::config;
use crate::config::{RelayMode, Timeout, TransportConfig};
use crate::error::{ErrorText, TransportError};
use crate::helper;
use crate::keys;
use crate::keys::{EndpointId, Keypair, SecretKey};
use crate::peer;
use crate::peer::PeerId;
use crate::protocol;
use crate::protocol::{Listener, Protocol, TransportEvent};

verus! {

/// Compares two listener identifiers with `==` of `libp2p::core::transport::ListenerId`, which
/// is derived: it tells whether they are the same.
#[verifier::external_body]
fn same_listener(a: &Listener, b: &Listener) -> (same: bool)
    ensures
        same == (*a == *b),
{
    a == b
}

/// Under which names a node is known: the secret key of its endpoint, the endpoint that runs
/// under that key, and the peer identifier of that endpoint.
pub struct Identity {
    secret_key: SecretKey,
    node_id: EndpointId,
    peer_id: PeerId,
}

impl Identity {
    /// The secret key.
    pub closed spec fn secret(self) -> Seq<u8> {
        self.secret_key@
    }

    /// The endpoint.
    pub closed spec fn node(self) -> Seq<u8> {
        self.node_id@
    }

    /// The peer identifier.
    pub closed spec fn peer(self) -> Seq<u8> {
        self.peer_id@
    }

    /// This is the node that runs under `secret`: the three names belong together.
    pub open spec fn runs_under(self, secret: Seq<u8>) -> bool {
        &&& self.secret() == secret
        &&& self.node() == keys::ed25519_public_key(secret)
        &&& self.peer() == peer::ed25519_peer_id(self.node())
    }

    /// The three names belong together.
    #[verifier::type_invariant]
    closed spec fn inv(self) -> bool {
        &&& self.node_id.wf()
        &&& self.node_id@ == keys::ed25519_public_key(self.secret_key@)
        &&& self.peer_id@ == peer::ed25519_peer_id(self.node_id@)
    }

    /// The identity of the node with the given secret key.
    pub fn from_secret(secret_key: SecretKey) -> (identity: Identity)
        ensures
            identity.runs_under(secret_key@),
    {
        let node_id = secret_key.public();
        let peer_id = PeerId::of_key(node_id.as_bytes().as_slice());
        Identity { secret_key, node_id, peer_id }
    }

    /// The identity of the node with the given key pair, which has to be an Ed25519 pair.
    pub fn from_keypair(keypair: &Keypair) -> (identity: Result<Identity, TransportError>)
        ensures
            match keys::ed25519_secret_of(keypair@) {
                Some(secret) => identity matches Ok(identity) && identity.runs_under(secret),
                None => identity matches Err(error) && error@ == ErrorText::Listen(
                    "Failed to convert libp2p keypair to iroh secret key"@,
                ),
            },
            keys::is_ed25519_encoding(keypair@) ==> is_identity_of(
                identity,
                keypair@.subrange(4, 36),
            ),
    {
        match helper::libp2p_keypair_to_iroh_secret(keypair) {
            Some(secret_key) => {
                let node_id = secret_key.public();
                let peer_id = PeerId::of_keypair(keypair);
                Ok(Identity { secret_key, node_id, peer_id })
            },
            None => Err(
                TransportError::from("Failed to convert libp2p keypair to iroh secret key"),
            ),
        }
    }
}

/// `identity` is that of the node which runs under `secret`, and no error.
pub open spec fn is_identity_of(
    identity: Result<Identity, TransportError>,
    secret: Seq<u8>,
) -> bool {
    identity matches Ok(identity) && identity.runs_under(secret)
}

/// A transport whose endpoint is being bound. `F` is the type of the peer filter.
pub struct Setup<F> {
    identity: Identity,
    timeout: Timeout,
    peer_filter: Option<F>,
}

/// The endpoint that is to be bound.
pub struct BindRequest {
    /// Its secret key.
    pub secret_key: SecretKey,
    /// The relay servers that it uses.
    pub relay_mode: RelayMode,
}

/// What came of binding the endpoint.
pub enum Startup {
    /// It runs, under the given identifier.
    Bound(EndpointId),
    /// It could not be bound.
    BindFailed,
    /// The task that was to bind it ended without a word.
    Lost,
}

/// A connection that is to be opened.
pub struct Dialing {
    /// The endpoint to connect to.
    pub node_id: EndpointId,
    /// How long that may take.
    pub timeout: Timeout,
}

/// What came of an attempt to connect.
pub enum Connect {
    /// The connection stands, with this endpoint at its other end.
    Connected(EndpointId),
    /// It took too long.
    TimedOut,
    /// It failed, for the given reason.
    Failed(String),
}

/// What the queue of events holds.
pub enum Received<E> {
    /// This event.
    Event(E),
    /// Nothing at present.
    Empty,
    /// Nothing, now and ever.
    Closed,
}

/// A transport. `F` is the type of the peer filter.
pub struct Transport<F> {
    secret_key: SecretKey,
    protocol: Protocol<F>,
    node_id: EndpointId,
    peer_id: PeerId,
    timeout: Timeout,
    listener_id: Option<Listener>,
    routing: bool,
}

impl<F> Setup<F> {
    /// The secret key of the endpoint.
    pub closed spec fn secret(self) -> Seq<u8> {
        self.identity.secret()
    }

    /// How long a dial attempt may take, in nanoseconds.
    pub closed spec fn time_limit(self) -> nat {
        self.timeout@
    }

    /// The peer filter.
    pub closed spec fn filter(self) -> Option<F> {
        self.peer_filter
    }

    /// Completes the transport, or tells why there is none.
    pub fn finish(self, startup: Startup) -> (transport: Result<Transport<F>, TransportError>)
        ensures
            match startup {
                Startup::Bound(id) => transport matches Ok(t) && is_fresh(t, self, id@),
                Startup::BindFailed => transport matches Err(error) && error@ == ErrorText::Listen(
                    "Failed to initialize iroh endpoint"@,
                ),
                Startup::Lost => transport matches Err(error) && error@ == ErrorText::Listen(
                    "Failed to receive transport from initialization"@,
                ),
            },
    {
        match startup {
            Startup::Bound(id) => {
                let identity = self.identity;
                proof {
                    use_type_invariant(&identity);
                }
                Ok(
                    Transport {
                        secret_key: identity.secret_key,
                        protocol: Protocol::new(id, self.peer_filter),
                        node_id: identity.node_id,
                        peer_id: identity.peer_id,
                        timeout: self.timeout,
                        listener_id: None,
                        routing: false,
                    },
                )
            },
            Startup::BindFailed => Err(TransportError::from("Failed to initialize iroh endpoint")),
            Startup::Lost => Err(
                TransportError::from("Failed to receive transport from initialization"),
            ),
        }
    }
}

/// `transport` is the one that `setup` gives once an endpoint is bound under the identifier
/// `bound`: it has the node's names, and it does not listen.
pub open spec fn is_fresh<F>(transport: Transport<F>, setup: Setup<F>, bound: Seq<u8>) -> bool {
    &&& transport.wf()
    &&& transport.secret() == setup.secret()
    &&& transport.time_limit() == setup.time_limit()
    &&& transport.filter() == setup.filter()
    &&& transport.local_node() == bound
    &&& transport.listener() is None
}

/// `setup` and `request` start a transport with the given secret key, relay mode, time limit in
/// nanoseconds, and peer filter.
pub open spec fn is_started<F>(
    setup: Setup<F>,
    request: BindRequest,
    secret: Seq<u8>,
    relay_mode: RelayMode,
    time_limit: nat,
    filter: Option<F>,
) -> bool {
    &&& setup.secret() == secret
    &&& setup.time_limit() == time_limit
    &&& setup.filter() == filter
    &&& request.secret_key@ == secret
    &&& request.relay_mode == relay_mode
}

/// `started` is no error, and starts a transport with the given secret key, relay mode, time limit
/// in nanoseconds, and peer filter.
pub open spec fn is_start_under<F>(
    started: Result<(Setup<F>, BindRequest), TransportError>,
    secret: Seq<u8>,
    relay_mode: RelayMode,
    time_limit: nat,
    filter: Option<F>,
) -> bool {
    started matches Ok(s) && is_started(s.0, s.1, secret, relay_mode, time_limit, filter)
}

/// `started` is what a transport with the given key pair, relay mode, time limit in nanoseconds,
/// and peer filter starts with. A key pair that is given has to be an Ed25519 pair; where none is
/// given, any secret key will do.
pub open spec fn is_start<F>(
    keypair: Option<&Keypair>,
    relay_mode: RelayMode,
    time_limit: nat,
    filter: Option<F>,
    started: Result<(Setup<F>, BindRequest), TransportError>,
) -> bool {
    match keypair {
        Some(keypair) => match keys::ed25519_secret_of(keypair@) {
            Some(secret) => is_start_under(started, secret, relay_mode, time_limit, filter),
            None => started matches Err(error) && error@ == ErrorText::Listen(
                "Failed to convert libp2p keypair to iroh secret key"@,
            ),
        },
        None => started matches Ok(s) && s.0.secret().len() == 32 && is_started(
            s.0,
            s.1,
            s.0.secret(),
            relay_mode,
            time_limit,
            filter,
        ),
    }
}

/// `event` tells that the listener `id` listens on the address of the endpoint `node`.
pub open spec fn is_new_address(event: TransportEvent, id: Listener, node: Seq<u8>) -> bool {
    event matches TransportEvent::NewAddress { listener_id, listen_addr } && listener_id == id
        && protocol::is_address_of(listen_addr, node)
}

impl<F> Transport<F> {
    /// The secret key of the endpoint.
    pub closed spec fn secret(self) -> Seq<u8> {
        self.secret_key@
    }

    /// The endpoint of this node.
    pub closed spec fn node(self) -> Seq<u8> {
        self.node_id@
    }

    /// The peer identifier of this node.
    pub closed spec fn peer(self) -> Seq<u8> {
        self.peer_id@
    }

    /// How long a dial attempt may take, in nanoseconds.
    pub closed spec fn time_limit(self) -> nat {
        self.timeout@
    }

    /// The peer filter.
    pub closed spec fn filter(self) -> Option<F> {
        self.protocol.filter()
    }

    /// The endpoint at which connections come in.
    pub closed spec fn local_node(self) -> Seq<u8> {
        self.protocol.local_node()
    }

    /// The listener, if the transport listens.
    pub closed spec fn listener(self) -> Option<Listener> {
        self.listener_id
    }

    /// The handler of incoming connections.
    pub closed spec fn handler(self) -> Protocol<F> {
        self.protocol
    }

    /// Whether incoming connections are routed to the handler.
    pub closed spec fn is_routing(self) -> bool {
        self.routing
    }

    /// The names of the node belong together: its endpoint runs under the secret key, and its peer
    /// identifier is that of the endpoint.
    pub open spec fn is_named(self) -> bool {
        &&& keys::is_ed25519_key(self.node())
        &&& self.node() == keys::ed25519_public_key(self.secret())
        &&& self.peer() == peer::ed25519_peer_id(self.node())
    }

    /// The names of the node always belong together.
    #[verifier::type_invariant]
    closed spec fn inv(self) -> bool {
        self.is_named()
    }

    /// The names of the node belong together; and connections are routed, and belong to the
    /// listener, exactly while there is one.
    pub open spec fn wf(self) -> bool {
        &&& self.is_named()
        &&& self.handler().listener() == self.listener()
        &&& self.is_routing() == self.listener() is Some
    }

    /// The transport listens for `id`, or not at all, and is in everything else as `before`.
    pub open spec fn is_listening_for(self, id: Option<Listener>, before: Self) -> bool {
        &&& self.listener() == id
        &&& self.handler().listener() == id
        &&& self.is_routing() == id is Some
        &&& self.secret() == before.secret()
        &&& self.node() == before.node()
        &&& self.peer() == before.peer()
        &&& self.time_limit() == before.time_limit()
        &&& self.filter() == before.filter()
        &&& self.local_node() == before.local_node()
    }

    /// Dial attempts may take so many nanoseconds, and the transport is in everything else as
    /// `before`.
    pub open spec fn is_limited_to(self, time_limit: nat, before: Self) -> bool {
        &&& self.time_limit() == time_limit
        &&& self.secret() == before.secret()
        &&& self.node() == before.node()
        &&& self.peer() == before.peer()
        &&& self.filter() == before.filter()
        &&& self.local_node() == before.local_node()
        &&& self.listener() == before.listener()
        &&& self.handler() == before.handler()
        &&& self.is_routing() == before.is_routing()
    }

    /// The two transports are in the same state.
    pub open spec fn same_state(self, other: Self) -> bool {
        &&& self.is_listening_for(other.listener(), other)
        &&& self.handler().listener() == other.handler().listener()
        &&& self.is_routing() == other.is_routing()
    }

    /// Starts a transport with the default configuration: the relay servers of n0, and 300
    /// seconds for a dial attempt.
    pub fn new(keypair: Option<&Keypair>) -> (started: Result<
        (Setup<F>, BindRequest),
        TransportError,
    >)
        ensures
            is_start(keypair, RelayMode::Default, 300 * 1_000_000_000, None, started),
            match keypair {
                Some(keypair) => keys::is_ed25519_encoding(keypair@) ==> is_start_under(
                    started,
                    keypair@.subrange(4, 36),
                    RelayMode::Default,
                    300 * 1_000_000_000,
                    None,
                ),
                None => true,
            },
    {
        Self::with_config(keypair, TransportConfig::default())
    }

    /// Starts a transport with the given configuration, under the given key pair or, if there is
    /// none, under a random secret key.
    pub fn with_config(keypair: Option<&Keypair>, config: TransportConfig<F>) -> (started: Result<
        (Setup<F>, BindRequest),
        TransportError,
    >)
        ensures
            is_start(
                keypair,
                config.relay_mode,
                config.timeout@,
                config.peer_filter,
                started,
            ),
            match keypair {
                Some(keypair) => keys::is_ed25519_encoding(keypair@) ==> is_start_under(
                    started,
                    keypair@.subrange(4, 36),
                    config.relay_mode,
                    config.timeout@,
                    config.peer_filter,
                ),
                None => true,
            },
    {
        let identity = match keypair {
            Some(keypair) => match Identity::from_keypair(keypair) {
                Ok(identity) => identity,
                Err(error) => {
                    return Err(error);
                },
            },
            None => Identity::from_secret(SecretKey::generate()),
        };
        Ok(Self::with_identity(identity, config))
    }

    /// Starts a transport with the given configuration under the given identity.
    pub fn with_identity(identity: Identity, config: TransportConfig<F>) -> (started: (
        Setup<F>,
        BindRequest,
    ))
        ensures
            is_started(
                started.0,
                started.1,
                identity.secret(),
                config.relay_mode,
                config.timeout@,
                config.peer_filter,
            ),
    {
        let request = BindRequest {
            secret_key: identity.secret_key,
            relay_mode: config.relay_mode,
        };
        let setup = Setup { identity, timeout: config.timeout, peer_filter: config.peer_filter };
        (setup, request)
    }

    /// The endpoint of this node.
    pub fn node_id(&self) -> (node_id: EndpointId)
        ensures
            node_id@ == self.node(),
            self.is_named(),
    {
        proof {
            use_type_invariant(self);
        }
        self.node_id
    }

    /// The peer identifier of this node.
    pub fn peer_id(&self) -> (peer_id: &PeerId)
        ensures
            peer_id@ == self.peer(),
            self.is_named(),
    {
        proof {
            use_type_invariant(self);
        }
        &self.peer_id
    }

    /// How long a dial attempt may take.
    pub fn timeout(&self) -> (timeout: Timeout)
        ensures
            timeout@ == self.time_limit(),
    {
        self.timeout
    }

    /// Sets how long a dial attempt may take, from the next one on.
    pub fn set_timeout(&mut self, timeout: Timeout)
        ensures
            final(self).is_limited_to(timeout@, *old(self)),
    {
        proof {
            use_type_invariant(&*self);
        }
        self.timeout = timeout;
    }

    /// The name of the protocol under which connections are to be routed to the handler.
    pub fn alpn(&self) -> (alpn: &'static str)
        ensures
            alpn@ == "/iroh/libp2p-transport/0.1.0"@,
            alpn@ == Protocol::<F>::ALPN@,
    {
        Protocol::<F>::ALPN
    }

    /// The handler of incoming connections.
    pub fn protocol(&self) -> (protocol: &Protocol<F>)
        ensures
            *protocol == self.handler(),
            protocol.filter() == self.filter(),
            protocol.local_node() == self.local_node(),
    {
        &self.protocol
    }

    /// Starts to listen for `id`, unless there is a listener already. Connections have then to be
    /// routed to the handler, and the swarm to be told of the address.
    pub fn listen_on(&mut self, id: Listener) -> (event: Result<TransportEvent, TransportError>)
        ensures
            match old(self).listener() {
                Some(_) => event matches Err(error) && error@ == ErrorText::Listen(
                    "Listener already exists for this transport"@,
                ) && *final(self) == *old(self),
                None => event matches Ok(event) && is_new_address(event, id, old(self).node())
                    && final(self).is_listening_for(Some(id), *old(self)),
            },
    {
        proof {
            use_type_invariant(&*self);
        }
        if self.listener_id.is_some() {
            return Err(TransportError::from("Listener already exists for this transport"));
        }
        self.routing = true;
        self.listener_id = Some(id);
        self.protocol.set_listener(Some(id));
        let listen_addr = helper::iroh_node_id_to_multiaddr(&self.node_id);
        Ok(TransportEvent::NewAddress { listener_id: id, listen_addr })
    }

    /// What `listen_on` comes to once the swarm has, or has not, been told of the address.
    pub fn announced(sent: Result<(), String>) -> (outcome: Result<(), TransportError>)
        ensures
            match sent {
                Ok(_) => outcome is Ok,
                Err(text) => outcome matches Err(error) && error@ == ErrorText::Listen(
                    "Failed to send NewAddress event: "@ + text@,
                ),
            },
    {
        match sent {
            Ok(_) => Ok(()),
            Err(text) => Err(
                TransportError::listen(
                    String::from_str("Failed to send NewAddress event: ").concat(text.as_str()),
                ),
            ),
        }
    }

    /// Stops to listen, if `id` is the listener. The result tells whether it was.
    pub fn remove_listener(&mut self, id: Listener) -> (removed: bool)
        ensures
            removed == (old(self).listener() == Some(id)),
            removed ==> final(self).is_listening_for(None, *old(self)),
            !removed ==> *final(self) == *old(self),
    {
        proof {
            use_type_invariant(&*self);
        }
        if let Some(current_id) = self.listener_id {
            if same_listener(&current_id, &id) {
                self.listener_id = None;
                self.routing = false;
                self.protocol.set_listener(None);
                return true;
            }
        }
        false
    }

    /// Tells which endpoint to connect to for the given address.
    pub fn dial(&self, addr: &Multiaddr) -> (dialing: Result<Dialing, TransportError>)
        ensures
            match helper::node_of_components(address::components(*addr)) {
                Some(node) => dialing matches Ok(d) && d.node_id@ == node && d.timeout@
                    == self.time_limit(),
                None => dialing matches Err(error) && error@ == ErrorText::Dial(
                    "Failed to extract iroh EndpointId from multiaddr"@,
                ),
            },
    {
        match helper::multiaddr_to_iroh_node_id(addr) {
            Some(node_id) => Ok(Dialing { node_id, timeout: self.timeout }),
            None => Err(
                TransportError::dial(
                    "Failed to extract iroh EndpointId from multiaddr".to_owned(),
                ),
            ),
        }
    }

    /// What the transport tells the swarm when it is asked for the next event: one that has come
    /// in, and otherwise that there is none at present.
    pub fn poll<E>(received: Received<E>) -> (event: Option<E>)
        ensures
            event == match received {
                Received::Event(event) => Some(event),
                Received::Empty => None,
                Received::Closed => None,
            },
    {
        match received {
            Received::Event(event) => Some(event),
            Received::Empty => None,
            Received::Closed => None,
        }
    }
}

/// The error of an attempt that took longer than `span` tells.
pub fn timed_out(span: String) -> (error: TransportError)
    ensures
        error@ == ErrorText::Dial("Connection timed out after "@ + span@),
{
    TransportError::dial(String::from_str("Connection timed out after ").concat(span.as_str()))
}

impl Dialing {
    /// The name of the protocol under which the connection is to be opened.
    pub fn alpn(&self) -> (alpn: &'static str)
        ensures
            alpn@ == "/iroh/libp2p-transport/0.1.0"@,
    {
        Protocol::<()>::ALPN
    }

    /// The peer that a connection attempt led to, or why it led to none.
    pub fn finish(&self, connect: Connect) -> (peer_id: Result<PeerId, TransportError>)
        ensures
            match connect {
                Connect::Connected(remote) => peer_id matches Ok(peer_id) && peer_id@
                    == peer::ed25519_peer_id(remote@),
                Connect::TimedOut => peer_id matches Err(error) && error@ == ErrorText::Dial(
                    "Connection timed out after "@ + config::duration_text(self.timeout@),
                ),
                Connect::Failed(text) => peer_id matches Err(error) && error@ == ErrorText::Dial(
                    text@,
                ),
            },
    {
        match connect {
            Connect::Connected(remote) => match helper::node_id_to_peerid(&remote) {
                Some(peer_id) => Ok(peer_id),
                None => Err(
                    TransportError::dial("Failed to convert EndpointId to peerid".to_owned()),
                ),
            },
            Connect::TimedOut => Err(timed_out(self.timeout.debug_text())),
            Connect::Failed(text) => Err(TransportError::dial(text)),
        }
    }
}

} // verus!
