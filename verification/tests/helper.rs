use libp2p::Multiaddr;
use libp2p_iroh::{
    first_node_id, iroh_node_id_to_multiaddr, libp2p_keypair_to_iroh_secret,
    multiaddr_to_iroh_node_id, node_id_to_peerid, peer_id_to_node_id, EndpointId, Keypair, PeerId,
    SecretKey,
};

fn keypair_of(keypair: &libp2p::identity::Keypair) -> Keypair {
    Keypair::from_protobuf_encoding(keypair.to_protobuf_encoding().unwrap())
}

fn peer_id_of(peer_id: &libp2p::PeerId) -> PeerId {
    PeerId::from_bytes(peer_id.to_bytes()).unwrap()
}

fn libp2p_peer_id(peer_id: &PeerId) -> libp2p::PeerId {
    libp2p::PeerId::from_bytes(peer_id.as_bytes()).unwrap()
}

/// An endpoint made by iroh itself.
fn iroh_endpoint() -> (iroh::EndpointId, EndpointId) {
    let id = iroh::SecretKey::generate().public();
    (id, EndpointId::from_bytes(id.as_bytes()).unwrap())
}

/// 32 bytes that are no coordinate of a curve point.
const NO_KEY: [u8; 32] = [
    2, 0, 0, 0, 0, 0, 0, 0, 0, 0, 0, 0, 0, 0, 0, 0, 0, 0, 0, 0, 0, 0, 0, 0, 0, 0, 0, 0, 0, 0, 0, 0,
];

/// A secret key of RFC 8032, section 7.1, and its public key.
const SECRET: [u8; 32] = [
    0x9d, 0x61, 0xb1, 0x9d, 0xef, 0xfd, 0x5a, 0x60, 0xba, 0x84, 0x4a, 0xf4, 0x92, 0xec, 0x2c, 0xc4,
    0x44, 0x49, 0xc5, 0x69, 0x7b, 0x32, 0x69, 0x19, 0x70, 0x3b, 0xac, 0x03, 0x1c, 0xae, 0x7f, 0x60,
];
const PUBLIC: [u8; 32] = [
    0xd7, 0x5a, 0x98, 0x01, 0x82, 0xb1, 0x0a, 0xb7, 0xd5, 0x4b, 0xfe, 0xd3, 0xc9, 0x64, 0x07, 0x3a,
    0x0e, 0xe1, 0x72, 0xf3, 0xda, 0xa6, 0x23, 0x25, 0xaf, 0x02, 0x1a, 0x68, 0xf7, 0x07, 0x51, 0x1a,
];

#[test]
fn keypair_to_iroh_secret_roundtrip() {
    let keypair = libp2p::identity::Keypair::generate_ed25519();
    let secret =
        libp2p_keypair_to_iroh_secret(&keypair_of(&keypair)).expect("conversion should succeed");
    let node_id = secret.public();

    let peer_id = peer_id_of(&libp2p::PeerId::from(keypair.public()));
    let node_id_from_peer = peer_id_to_node_id(&peer_id).expect("peer_id -> node_id");

    assert_eq!(node_id, node_id_from_peer);
}

#[test]
fn peer_id_node_id_roundtrip() {
    let keypair = libp2p::identity::Keypair::generate_ed25519();
    let peer_id = peer_id_of(&libp2p::PeerId::from(keypair.public()));

    let node_id = peer_id_to_node_id(&peer_id).expect("peer_id -> node_id");
    let peer_id_back = node_id_to_peerid(&node_id).expect("node_id -> peer_id");

    assert_eq!(peer_id, peer_id_back);
}

#[test]
fn multiaddr_node_id_roundtrip() {
    let secret = SecretKey::generate();
    let node_id = secret.public();

    let multiaddr = iroh_node_id_to_multiaddr(&node_id);
    let node_id_back = multiaddr_to_iroh_node_id(&multiaddr).expect("multiaddr -> node_id");

    assert_eq!(node_id, node_id_back);
}

#[test]
fn multiaddr_with_prefix_extracts_node_id() {
    let secret = SecretKey::generate();
    let node_id = secret.public();
    let peer_id = libp2p_peer_id(&node_id_to_peerid(&node_id).expect("node_id -> peer_id"));

    let addr: Multiaddr =
        format!("/ip4/0.0.0.0/udp/0/p2p/{peer_id}").parse().expect("valid multiaddr");

    let extracted = multiaddr_to_iroh_node_id(&addr).expect("should extract node_id");
    assert_eq!(node_id, extracted);
}

#[test]
fn multiaddr_without_p2p_returns_none() {
    let addr: Multiaddr = "/ip4/127.0.0.1/tcp/8080".parse().unwrap();
    assert!(multiaddr_to_iroh_node_id(&addr).is_none());
}

#[test]
fn empty_multiaddr_returns_none() {
    let addr = Multiaddr::empty();
    assert!(multiaddr_to_iroh_node_id(&addr).is_none());
}

#[test]
fn iroh_secret_preserves_key_material() {
    let keypair = libp2p::identity::Keypair::generate_ed25519();
    let ed25519 = keypair.clone().try_into_ed25519().unwrap();
    let original_secret_bytes = ed25519.secret().as_ref().to_vec();

    let iroh_secret = libp2p_keypair_to_iroh_secret(&keypair_of(&keypair)).unwrap();
    let iroh_secret_bytes = iroh_secret.to_bytes();

    assert_eq!(original_secret_bytes, iroh_secret_bytes.as_slice());
}

#[test]
fn node_id_survives_its_peer_id() {
    let (iroh_id, node_id) = iroh_endpoint();
    let peer_id = node_id_to_peerid(&node_id).unwrap();
    assert_eq!(peer_id_to_node_id(&peer_id).unwrap(), node_id);
    assert_eq!(node_id.as_bytes(), iroh_id.as_bytes());
}

#[test]
fn peer_id_of_a_known_key() {
    let node_id = EndpointId::from_bytes(&PUBLIC).unwrap();
    let peer_id = node_id_to_peerid(&node_id).unwrap();
    let mut expected = vec![0x00, 0x24, 0x08, 0x01, 0x12, 0x20];
    expected.extend_from_slice(&PUBLIC);
    assert_eq!(peer_id.to_bytes(), expected);
}

#[test]
fn secret_key_of_a_known_key() {
    let secret = SecretKey::from_bytes(&SECRET);
    assert_eq!(secret.to_bytes(), SECRET);
    assert_eq!(secret.public().as_bytes(), &PUBLIC);
    assert!(SecretKey::from_slice(&SECRET).is_some());
    assert!(SecretKey::from_slice(&SECRET[1..]).is_none());
}

#[test]
fn encoding_of_an_ed25519_keypair() {
    let mut encoding = vec![0x08, 0x01, 0x12, 0x40];
    encoding.extend_from_slice(&SECRET);
    encoding.extend_from_slice(&PUBLIC);

    let mut seed = SECRET;
    let keypair = libp2p::identity::Keypair::ed25519_from_bytes(&mut seed).unwrap();
    assert_eq!(keypair.to_protobuf_encoding().unwrap(), encoding);

    let secret = libp2p_keypair_to_iroh_secret(&Keypair::from_protobuf_encoding(encoding));
    assert_eq!(secret.unwrap().to_bytes(), SECRET);
}

#[test]
fn other_keypairs_have_no_iroh_secret() {
    // Another key type, a public key that does not belong to the secret, and no message at all.
    let mut other_type = vec![0x08, 0x02, 0x12, 0x20];
    other_type.extend_from_slice(&SECRET);
    let mut mismatched = vec![0x08, 0x01, 0x12, 0x40];
    mismatched.extend_from_slice(&SECRET);
    mismatched.extend_from_slice(&SECRET);
    for encoding in [other_type, mismatched, vec![], vec![0xff]] {
        let keypair = Keypair::from_protobuf_encoding(encoding);
        assert!(libp2p_keypair_to_iroh_secret(&keypair).is_none());
    }
}

#[test]
fn only_curve_points_are_endpoints() {
    assert!(EndpointId::from_bytes(&PUBLIC).is_some());
    assert!(EndpointId::from_bytes(&NO_KEY).is_none());
    assert!(libp2p::identity::ed25519::PublicKey::try_from_bytes(&NO_KEY).is_err());

    // The top bit only tells the sign of the other coordinate.
    let mut negated = PUBLIC;
    negated[31] |= 0x80;
    assert!(EndpointId::from_bytes(&negated).is_some());

    // The coordinate need not be reduced: this one is the prime plus one, hence 1.
    let mut unreduced = [0xff; 32];
    unreduced[0] = 0xee;
    unreduced[31] = 0x7f;
    assert!(EndpointId::from_bytes(&unreduced).is_some());
}

#[test]
fn peer_ids_that_name_no_endpoint() {
    // Too short, too long, and of the right length but without a key in it.
    let mut hashed = vec![0x12, 0x20];
    hashed.extend_from_slice(&PUBLIC);
    assert!(peer_id_to_node_id(&PeerId::from_bytes(hashed).unwrap()).is_none());

    let mut long = vec![0x00, 0x25, 0x08, 0x02, 0x12, 0x21, 0x02];
    long.extend_from_slice(&PUBLIC);
    assert!(peer_id_to_node_id(&PeerId::from_bytes(long).unwrap()).is_none());

    let mut no_key = vec![0x00, 0x24, 0x08, 0x01, 0x12, 0x20];
    no_key.extend_from_slice(&NO_KEY);
    assert!(peer_id_to_node_id(&PeerId::from_bytes(no_key).unwrap()).is_none());
}

#[test]
fn header_of_a_peer_id_is_not_looked_at() {
    let mut bytes = vec![0x12, 0x24, 1, 2, 3, 4];
    bytes.extend_from_slice(&PUBLIC);
    let peer_id = PeerId::from_bytes(bytes).unwrap();
    let node_id = peer_id_to_node_id(&peer_id).unwrap();
    assert_eq!(node_id.as_bytes(), &PUBLIC);
    assert_ne!(node_id_to_peerid(&node_id).unwrap(), peer_id);
}

#[test]
fn form_of_peer_ids() {
    for (code, size, accepted) in [
        (0x00u8, 0u8, true),
        (0x00, 42, true),
        (0x00, 43, false),
        (0x12, 0, true),
        (0x12, 64, true),
        (0x12, 65, false),
        (0x11, 20, false),
    ] {
        let mut bytes = vec![code, size];
        bytes.resize(2 + size as usize, 7);
        assert_eq!(libp2p::PeerId::from_bytes(&bytes).is_ok(), accepted);
        assert_eq!(PeerId::from_bytes(bytes.clone()).is_some(), accepted);
        bytes.push(7);
        assert!(PeerId::from_bytes(bytes).is_none());
    }
    assert!(PeerId::from_bytes(vec![]).is_none());
    assert!(PeerId::from_bytes(vec![0x00]).is_none());
    assert!(PeerId::from_bytes(vec![0x00, 0x01]).is_none());
}

#[test]
fn peer_ids_of_libp2p_are_kept() {
    let random = libp2p::PeerId::random();
    let peer_id = peer_id_of(&random);
    assert_eq!(libp2p_peer_id(&peer_id), random);
    assert_eq!(peer_id.clone(), peer_id);
}

#[test]
fn address_of_an_endpoint() {
    let node_id = EndpointId::from_bytes(&PUBLIC).unwrap();
    let peer_id = libp2p_peer_id(&node_id_to_peerid(&node_id).unwrap());
    let addr = iroh_node_id_to_multiaddr(&node_id);
    assert_eq!(addr.to_string(), format!("/p2p/{peer_id}"));
}

#[test]
fn first_usable_component_counts() {
    let (_, first) = iroh_endpoint();
    let (_, second) = iroh_endpoint();
    let first_peer = libp2p_peer_id(&node_id_to_peerid(&first).unwrap());
    let second_peer = libp2p_peer_id(&node_id_to_peerid(&second).unwrap());
    let unusable = libp2p::PeerId::random();

    let addr: Multiaddr =
        format!("/ip4/1.2.3.4/udp/1/p2p/{unusable}/p2p-circuit/p2p/{first_peer}/p2p/{second_peer}")
            .parse()
            .unwrap();
    assert_eq!(multiaddr_to_iroh_node_id(&addr).unwrap(), first);

    let addr: Multiaddr = format!("/p2p/{unusable}").parse().unwrap();
    assert!(multiaddr_to_iroh_node_id(&addr).is_none());

    let peer_ids = [None, Some(peer_id_of(&unusable)), Some(peer_id_of(&second_peer)), None];
    assert_eq!(first_node_id(&peer_ids).unwrap(), second);
    assert!(first_node_id(&peer_ids[..2]).is_none());
    assert!(first_node_id(&[]).is_none());
}

#[test]
fn random_keys_differ() {
    assert_ne!(SecretKey::generate().to_bytes(), SecretKey::generate().to_bytes());
}
