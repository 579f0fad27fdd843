use libp2p::Multiaddr;
use libp2p_iroh::{
    node_id_to_peerid, Acceptance, BindRequest, Connect, Dialing, EndpointId, Keypair, Listener,
    PeerId, Protocol, Received, RelayMode, SecretKey, Setup, Startup, Timeout, Transport,
    TransportConfig, TransportError, TransportErrorKind, TransportEvent,
};

type Filter = fn(&EndpointId) -> bool;

fn reject_all(_: &EndpointId) -> bool {
    false
}

fn accept_all(_: &EndpointId) -> bool {
    true
}

fn keypair_of(keypair: &libp2p::identity::Keypair) -> Keypair {
    Keypair::from_protobuf_encoding(keypair.to_protobuf_encoding().unwrap())
}

fn bound(started: (Setup<Filter>, BindRequest)) -> Transport<Filter> {
    let (setup, request) = started;
    setup.finish(Startup::Bound(request.secret_key.public())).unwrap()
}

fn with_config(config: TransportConfig<Filter>) -> Transport<Filter> {
    let keypair = libp2p::identity::Keypair::generate_ed25519();
    bound(Transport::with_config(Some(&keypair_of(&keypair)), config).unwrap())
}

fn listen_text(error: &TransportError) -> &str {
    match error.kind() {
        TransportErrorKind::Listen(text) => text,
        TransportErrorKind::Dial(text) => panic!("dial: {text}"),
    }
}

fn dial_text(error: &TransportError) -> &str {
    match error.kind() {
        TransportErrorKind::Dial(text) => text,
        TransportErrorKind::Listen(text) => panic!("listen: {text}"),
    }
}

fn error_of<T>(result: Result<T, TransportError>) -> TransportError {
    match result {
        Ok(_) => panic!("no error"),
        Err(error) => error,
    }
}

fn listen_addr(event: TransportEvent) -> (Listener, Multiaddr) {
    match event {
        TransportEvent::NewAddress { listener_id, listen_addr } => (listener_id, listen_addr),
        TransportEvent::Incoming { .. } => panic!("an incoming connection"),
    }
}

#[test]
fn new_creates_transport_with_default_config() {
    let keypair = libp2p::identity::Keypair::generate_ed25519();
    let transport = Transport::<Filter>::new(Some(&keypair_of(&keypair)));
    assert!(transport.is_ok());
    let started = transport.unwrap_or_else(|_| unreachable!());
    assert!(matches!(started.1.relay_mode, RelayMode::Default));
    let t = bound(started);
    assert_eq!(t.timeout(), Timeout::from_secs(300));
}

#[test]
fn with_config_custom_timeout() {
    let keypair = libp2p::identity::Keypair::generate_ed25519();
    let config = TransportConfig::<Filter> { timeout: Timeout::from_secs(60), ..Default::default() };
    let transport = Transport::with_config(Some(&keypair_of(&keypair)), config);
    assert!(transport.is_ok());
    let t = bound(transport.unwrap_or_else(|_| unreachable!()));
    assert_eq!(t.timeout(), Timeout::from_secs(60));
}

#[test]
fn with_config_default_equals_new() {
    let keypair = libp2p::identity::Keypair::generate_ed25519();
    let config = TransportConfig::<Filter>::default();
    let transport = Transport::with_config(Some(&keypair_of(&keypair)), config);
    assert!(transport.is_ok());
    let t = bound(transport.unwrap_or_else(|_| unreachable!()));
    assert_eq!(t.timeout(), Timeout::from_secs(300));
}

#[test]
fn with_config_relay_disabled() {
    let keypair = libp2p::identity::Keypair::generate_ed25519();
    let config =
        TransportConfig::<Filter> { relay_mode: RelayMode::Disabled, ..Default::default() };
    let transport = Transport::with_config(Some(&keypair_of(&keypair)), config);
    assert!(transport.is_ok());
    let (_, request) = transport.unwrap_or_else(|_| unreachable!());
    assert!(matches!(request.relay_mode, RelayMode::Disabled));
}

#[test]
fn transport_runs_under_the_keypair() {
    let keypair = libp2p::identity::Keypair::generate_ed25519();
    let started = Transport::<Filter>::new(Some(&keypair_of(&keypair))).unwrap();
    let secret = keypair.clone().try_into_ed25519().unwrap().secret();
    assert_eq!(started.1.secret_key.to_bytes().as_slice(), secret.as_ref());
    let t = bound(started);
    let public = keypair.public().try_into_ed25519().unwrap().to_bytes();
    assert_eq!(t.node_id().as_bytes(), &public);
    assert_eq!(t.peer_id().to_bytes(), keypair.public().to_peer_id().to_bytes());
}

#[test]
fn transport_runs_under_the_secret_in_the_encoding() {
    let keypair = libp2p::identity::Keypair::generate_ed25519();
    let encoding = keypair.to_protobuf_encoding().unwrap();
    let (_, request) = Transport::<Filter>::new(Some(&keypair_of(&keypair))).unwrap();
    assert_eq!(request.secret_key.to_bytes().as_slice(), &encoding[4..36]);
}

#[test]
fn transport_without_a_keypair_draws_one() {
    let started = Transport::<Filter>::new(None).unwrap();
    let secret = started.1.secret_key;
    let t = bound(started);
    assert_eq!(t.node_id(), secret.public());
    assert_eq!(t.peer_id(), &node_id_to_peerid(&t.node_id()).unwrap());
    let other = Transport::<Filter>::new(None).unwrap();
    assert_ne!(other.1.secret_key.to_bytes(), secret.to_bytes());
}

#[test]
fn connections_come_in_at_the_node() {
    let t = with_config(TransportConfig::default());
    assert_eq!(t.protocol().local_node_id(), t.node_id());
    assert_eq!(t.protocol().listener_id(), None);
    assert!(t.protocol().peer_filter().is_none());

    let mut t = with_config(TransportConfig {
        peer_filter: Some(accept_all as Filter),
        ..Default::default()
    });
    let id = Listener::next();
    t.listen_on(id).unwrap_or_else(|_| unreachable!());
    assert_eq!(t.protocol().listener_id(), Some(id));
    assert!(t.protocol().peer_filter().is_some_and(|filter| filter(&t.node_id())));
}

#[test]
fn transport_refuses_other_keypairs() {
    let keypair = Keypair::from_protobuf_encoding(vec![0x08, 0x02, 0x12, 0x00]);
    let error = error_of(Transport::<Filter>::new(Some(&keypair)));
    assert_eq!(listen_text(&error), "Failed to convert libp2p keypair to iroh secret key");
}

#[test]
fn startup_can_fail() {
    let (setup, _) = Transport::<Filter>::new(None).unwrap();
    let error = error_of(setup.finish(Startup::BindFailed));
    assert_eq!(listen_text(&error), "Failed to initialize iroh endpoint");

    let (setup, _) = Transport::<Filter>::new(None).unwrap();
    let error = error_of(setup.finish(Startup::Lost));
    assert_eq!(listen_text(&error), "Failed to receive transport from initialization");
}

#[test]
fn listener_is_exclusive() {
    let mut t = with_config(TransportConfig::default());
    let (first, second) = (Listener::next(), Listener::next());

    let (id, _) = listen_addr(t.listen_on(first).unwrap());
    assert_eq!(id, first);
    let error = error_of(t.listen_on(second));
    assert_eq!(listen_text(&error), "Listener already exists for this transport");

    assert!(!t.remove_listener(second));
    assert!(t.remove_listener(first));
    assert!(!t.remove_listener(first));
    let (id, _) = listen_addr(t.listen_on(second).unwrap());
    assert_eq!(id, second);
}

#[test]
fn announcement_can_fail() {
    assert!(Transport::<Filter>::announced(Ok(())).is_ok());
    let error = error_of(Transport::<Filter>::announced(Err("channel closed".to_string())));
    assert_eq!(listen_text(&error), "Failed to send NewAddress event: channel closed");

    assert!(Protocol::<Filter>::delivered(Ok(())).is_ok());
    let error = error_of(Protocol::<Filter>::delivered(Err("channel closed".to_string())));
    assert_eq!(listen_text(&error), "channel closed");
}

#[test]
fn dialing_an_announced_address_leads_to_the_listener() {
    let mut a = with_config(TransportConfig::default());
    let b = with_config(TransportConfig {
        timeout: Timeout::new(1, 500_000_000).unwrap(),
        ..Default::default()
    });
    let (_, addr) = listen_addr(a.listen_on(Listener::next()).unwrap());
    let dialing = b.dial(&addr).unwrap_or_else(|_| unreachable!());
    assert_eq!(dialing.node_id, a.node_id());
    assert_eq!(dialing.timeout, b.timeout());

    let peer_id = dialing.finish(Connect::Connected(a.node_id())).unwrap();
    assert_eq!(&peer_id, a.peer_id());

    let peer_a = libp2p::PeerId::from_bytes(a.peer_id().as_bytes()).unwrap();
    let addr: Multiaddr = format!("/p2p/{peer_a}").parse().unwrap();
    let dialing = b.dial(&addr).unwrap_or_else(|_| unreachable!());
    assert_eq!(dialing.node_id, a.node_id());
}

#[test]
fn timeout_can_be_changed() {
    let mut t = with_config(TransportConfig::default());
    let id = Listener::next();
    let (_, addr) = listen_addr(t.listen_on(id).unwrap());
    let (node_id, peer_id) = (t.node_id(), t.peer_id().clone());

    let timeout = Timeout::new(7, 5).unwrap();
    t.set_timeout(timeout);
    assert_eq!(t.timeout(), timeout);
    let dialing = t.dial(&addr).unwrap_or_else(|_| unreachable!());
    assert_eq!(dialing.timeout, timeout);

    assert_eq!(t.node_id(), node_id);
    assert_eq!(t.peer_id(), &peer_id);
    assert_eq!(t.protocol().listener_id(), Some(id));
    assert!(t.remove_listener(id));
    assert_eq!(t.timeout(), timeout);
}

#[test]
fn dialing_can_fail() {
    let t = with_config(TransportConfig::default());
    let addr: Multiaddr = "/ip4/127.0.0.1/tcp/8080".parse().unwrap();
    let error = error_of(t.dial(&addr));
    assert_eq!(dial_text(&error), "Failed to extract iroh EndpointId from multiaddr");

    let dialing =
        Dialing { node_id: t.node_id(), timeout: Timeout::new(1, 500_000_000).unwrap() };
    let error = error_of(dialing.finish(Connect::TimedOut));
    assert_eq!(dial_text(&error), "Connection timed out after 1.5s");
    let error = error_of(dialing.finish(Connect::Failed("no route".to_string())));
    assert_eq!(dial_text(&error), "no route");
}

#[test]
fn poll_hands_events_through() {
    assert_eq!(Transport::<Filter>::poll(Received::Event(7)), Some(7));
    assert_eq!(Transport::<Filter>::poll(Received::<u8>::Empty), None);
    assert_eq!(Transport::<Filter>::poll(Received::<u8>::Closed), None);
}

#[test]
fn name_of_the_protocol() {
    let name = "/iroh/libp2p-transport/0.1.0";
    assert_eq!(Protocol::<Filter>::ALPN, name);

    let mut t = with_config(TransportConfig::default());
    assert_eq!(t.alpn(), name);
    let (_, addr) = listen_addr(t.listen_on(Listener::next()).unwrap());
    let dialing = t.dial(&addr).unwrap_or_else(|_| unreachable!());
    assert_eq!(dialing.alpn(), name);
}

fn incoming(acceptance: Acceptance) -> (Listener, PeerId, Multiaddr, Multiaddr) {
    match acceptance {
        Acceptance::Announce(TransportEvent::Incoming {
            listener_id,
            peer_id,
            local_addr,
            send_back_addr,
        }) => (listener_id, peer_id, local_addr, send_back_addr),
        _ => panic!("not announced"),
    }
}

fn is_rejected(acceptance: Acceptance) -> bool {
    match acceptance {
        Acceptance::Reject { code, reason, error } => {
            assert_eq!(code, 1);
            assert_eq!(reason, "rejected by peer filter");
            assert_eq!(listen_text(&error), "Peer rejected by filter");
            true
        }
        _ => false,
    }
}

fn failure(acceptance: Acceptance) -> String {
    match acceptance {
        Acceptance::Fail(error) => listen_text(&error).to_string(),
        _ => panic!("no failure"),
    }
}

#[test]
fn filter_rejects_connections() {
    let mut t = with_config(TransportConfig {
        peer_filter: Some(reject_all as Filter),
        ..Default::default()
    });
    let remote = SecretKey::generate().public();
    assert!(is_rejected(t.protocol().accept(&remote)));
    t.listen_on(Listener::next()).unwrap_or_else(|_| unreachable!());
    assert!(is_rejected(t.protocol().accept(&remote)));
    assert!(is_rejected(t.protocol().decide(Some(false), &remote)));
}

#[test]
fn filter_tells_peers_apart() {
    let friend = SecretKey::generate().public();
    let stranger = SecretKey::generate().public();
    let protocol = Protocol::new(friend, Some(|id: &EndpointId| *id == friend));
    assert!(is_rejected(protocol.accept(&stranger)));
    assert_eq!(failure(protocol.accept(&friend)), "Listener ID should be set");

    let ask = |filter, id| Protocol::<Filter>::verdict(filter, id);
    assert_eq!(ask(None, &friend), None);
    assert_eq!(ask(Some(&(accept_all as Filter)), &friend), Some(true));
    assert_eq!(ask(Some(&(reject_all as Filter)), &friend), Some(false));
}

#[test]
fn connections_are_accepted_while_listening() {
    for peer_filter in [None, Some(accept_all as Filter)] {
        let mut t = with_config(TransportConfig { peer_filter, ..Default::default() });
        let remote = SecretKey::generate().public();
        assert_eq!(failure(t.protocol().accept(&remote)), "Listener ID should be set");

        let id = Listener::next();
        t.listen_on(id).unwrap_or_else(|_| unreachable!());
        let (listener_id, peer_id, local_addr, send_back_addr) =
            incoming(t.protocol().accept(&remote));
        assert_eq!(listener_id, id);
        assert_eq!(peer_id, node_id_to_peerid(&remote).unwrap());
        let dial = |addr| t.dial(addr).unwrap_or_else(|_| unreachable!()).node_id;
        assert_eq!(dial(&local_addr), t.node_id());
        assert_eq!(dial(&send_back_addr), remote);

        assert!(t.remove_listener(id));
        assert_eq!(failure(t.protocol().accept(&remote)), "Listener ID should be set");
    }
}

#[test]
fn both_ends_know_each_other() {
    let mut listener = with_config(TransportConfig::default());
    let dialer = with_config(TransportConfig::default());
    let (_, addr) = listen_addr(listener.listen_on(Listener::next()).unwrap());

    let dialing = dialer.dial(&addr).unwrap_or_else(|_| unreachable!());
    let reached = dialing.finish(Connect::Connected(dialing.node_id)).unwrap();
    assert_eq!(&reached, listener.peer_id());

    let (_, peer_id, _, _) = incoming(listener.protocol().accept(&dialer.node_id()));
    assert_eq!(&peer_id, dialer.peer_id());
}

#[test]
fn errors_are_shown() {
    let error = TransportError::from("no \"route\"");
    assert_eq!(error.to_string(), "TransportError: Listen(\"no \\\"route\\\"\")");
    let error = TransportError::dial("gone\n".to_string());
    assert_eq!(error.to_string(), "TransportError: Dial(\"gone\\n\")");
    assert_eq!(error.clone().to_string(), error.to_string());
}

#[test]
fn handlers_are_shown() {
    let secret = iroh::SecretKey::generate();
    let node_id = EndpointId::from_bytes(secret.public().as_bytes()).unwrap();
    assert_eq!(node_id.debug_text(), format!("{:?}", secret.public()));

    let one = EndpointId::from_bytes(&[
        1, 0, 0, 0, 0, 0, 0, 0, 0, 0, 0, 0, 0, 0, 0, 0, 0, 0, 0, 0, 0, 0, 0, 0, 0, 0, 0, 0, 0, 0,
        0, 0,
    ])
    .unwrap();
    let text = format!("PublicKey(01{})", "0".repeat(62));
    assert_eq!(one.debug_text(), text);

    let protocol = Protocol::<Filter>::new(one, None);
    assert_eq!(
        protocol.debug_text("None".to_string()),
        format!("Protocol {{ peer_filter: None, shared_listener_id: None, local_node_id: {text} }}")
    );
    let protocol = Protocol::new(one, Some(accept_all as Filter));
    assert_eq!(
        protocol.debug_text("Some(3)".to_string()),
        format!(
            "Protocol {{ peer_filter: Some(\"<fn>\"), shared_listener_id: Some(3), local_node_id: {text} }}"
        )
    );
}

#[test]
fn timeouts() {
    let timeout = Timeout::new(2, 999_999_999).unwrap();
    assert_eq!((timeout.as_secs(), timeout.subsec_nanos()), (2, 999_999_999));
    assert!(Timeout::new(2, 1_000_000_000).is_none());
    assert_eq!(Timeout::from_secs(300).debug_text(), "300s");
    assert_eq!(Timeout::new(0, 1_500).unwrap().debug_text(), "1.5µs");
}

#[test]
fn configurations_are_shown() {
    let config = TransportConfig::<Filter>::default();
    assert_eq!(
        config.debug_text(),
        "TransportConfig { relay_mode: \"Default\", timeout: 300s, peer_filter: None }"
    );

    let map = iroh::RelayMap::empty();
    let custom = format!("{:?}", iroh::RelayMode::Custom(map.clone()));
    let config = TransportConfig {
        relay_mode: RelayMode::Custom(map),
        timeout: Timeout::from_secs(1),
        peer_filter: Some(accept_all as Filter),
    };
    assert_eq!(
        config.debug_text(),
        format!(
            "TransportConfig {{ relay_mode: {custom:?}, timeout: 1s, peer_filter: Some(\"Some(<fn>)\") }}"
        )
    );
    for (mode, iroh_mode) in [
        (RelayMode::Disabled, iroh::RelayMode::Disabled),
        (RelayMode::Default, iroh::RelayMode::Default),
        (RelayMode::Staging, iroh::RelayMode::Staging),
    ] {
        assert_eq!(mode.debug_text(String::new()), format!("{iroh_mode:?}"));
    }
}
