//! Peer identifiers, by which libp2p names a node.

use vstd::prelude::*;

use crate::keys;
use crate::keys::Keypair;

verus! {

/// `bytes` are those of a peer identifier: a multihash whose code is that of SHA-256 or, for a
/// digest of at most 42 bytes, that of the identity. The code and the length of the digest take
/// one byte each, and no digest is longer than 64 bytes.
pub open spec fn is_peer_id(bytes: Seq<u8>) -> bool {
    &&& bytes.len() >= 2
    &&& bytes[1] == bytes.len() - 2
    &&& bytes[0] == 0x12 && bytes[1] <= 64 || bytes[0] == 0x00 && bytes[1] <= 42
}

/// What stands before the key in the peer identifier of an Ed25519 key: the identity multihash of
/// 36 bytes, and in it a protobuf message with the key type and a key of 32 bytes.
pub open spec fn ed25519_header() -> Seq<u8> {
    seq![0x00u8, 0x24u8, 0x08u8, 0x01u8, 0x12u8, 0x20u8]
}

/// The peer identifier of an Ed25519 public key: the key itself, behind a fixed header.
pub open spec fn ed25519_peer_id(key: Seq<u8>) -> Seq<u8> {
    ed25519_header() + key
}

/// Calls `libp2p::identity::ed25519::PublicKey::try_from_bytes` and tells whether it accepts
/// `key`. It does so for Ed25519 public keys and for nothing else.
#[verifier::external_body]
pub(crate) fn libp2p_accepts_key(key: &[u8]) -> (accepted: bool)
    ensures
        accepted == keys::is_ed25519_key(key@),
{
    libp2p::identity::ed25519::PublicKey::try_from_bytes(key).is_ok()
}

/// Calls `libp2p::PeerId::from_public_key` on an Ed25519 public key. The protobuf encoding of
/// such a key is short enough to be the digest of an identity multihash, so that the identifier
/// is the key behind a fixed header.
#[verifier::external_body]
fn libp2p_peer_id(key: &[u8]) -> (bytes: Vec<u8>)
    requires
        keys::is_ed25519_key(key@),
    ensures
        bytes@ == ed25519_peer_id(key@),
{
    let key = libp2p::identity::ed25519::PublicKey::try_from_bytes(key).expect("a valid key");
    libp2p::PeerId::from_public_key(&libp2p::identity::PublicKey::from(key)).to_bytes()
}

/// Calls `libp2p::identity::Keypair::public` on the Ed25519 key pair that `encoding` decodes to,
/// and takes the bytes of the public key. The claim is that the key is the one which belongs to
/// the secret key of the pair, and a valid one; libp2p and iroh derive it by the same rule.
#[verifier::external_body]
fn libp2p_public_key(encoding: &[u8]) -> (key: Vec<u8>)
    requires
        keys::ed25519_secret_of(encoding@) is Some,
    ensures
        key@ == keys::ed25519_public_key(keys::ed25519_secret_of(encoding@)->0),
        keys::is_ed25519_key(key@),
{
    let keypair = libp2p::identity::Keypair::from_protobuf_encoding(encoding).expect("decodes");
    let key = keypair.public().try_into_ed25519().expect("an Ed25519 key");
    key.to_bytes().to_vec()
}

/// The identifier of a libp2p peer.
#[derive(Debug, PartialEq, Eq, Hash)]
pub struct PeerId {
    bytes: Vec<u8>,
}

impl View for PeerId {
    type V = Seq<u8>;

    closed spec fn view(&self) -> Seq<u8> {
        self.bytes@
    }
}

impl Clone for PeerId {
    fn clone(&self) -> (id: Self)
        ensures
            id@ == self@,
    {
        proof {
            use_type_invariant(self);
        }
        let bytes = self.to_bytes();
        PeerId { bytes }
    }
}

impl PeerId {
    /// The bytes are those of a peer identifier.
    pub open spec fn wf(self) -> bool {
        is_peer_id(self@)
    }

    #[verifier::type_invariant]
    closed spec fn inv(self) -> bool {
        is_peer_id(self.bytes@)
    }

    /// Takes `bytes` as a peer identifier, if they are those of one.
    pub fn from_bytes(bytes: Vec<u8>) -> (id: Option<PeerId>)
        ensures
            id is Some <==> is_peer_id(bytes@),
            id matches Some(id) ==> id@ == bytes@,
    {
        if bytes.len() < 2 {
            return None;
        }
        let code = bytes[0];
        let size = bytes[1];
        if size as usize == bytes.len() - 2 && (code == 0x12 && size <= 64 || code == 0x00 && size
            <= 42) {
            Some(PeerId { bytes })
        } else {
            None
        }
    }

    /// The bytes of the identifier.
    pub fn to_bytes(&self) -> (bytes: Vec<u8>)
        ensures
            bytes@ == self@,
    {
        vstd::slice::slice_to_vec(self.bytes.as_slice())
    }

    /// The bytes of the identifier.
    pub fn as_bytes(&self) -> (bytes: &[u8])
        ensures
            bytes@ == self@,
            self.wf(),
    {
        proof {
            use_type_invariant(self);
        }
        self.bytes.as_slice()
    }

    /// The peer identifier of a valid Ed25519 public key.
    pub(crate) fn of_key(key: &[u8]) -> (id: PeerId)
        requires
            keys::is_ed25519_key(key@),
        ensures
            id@ == ed25519_peer_id(key@),
            id.wf(),
    {
        proof {
            lemma_ed25519_peer_id(key@);
        }
        let bytes = libp2p_peer_id(key);
        PeerId { bytes }
    }

    /// The peer identifier of an Ed25519 key pair.
    pub(crate) fn of_keypair(keypair: &Keypair) -> (id: PeerId)
        requires
            keys::ed25519_secret_of(keypair@) is Some,
        ensures
            id@ == ed25519_peer_id(
                keys::ed25519_public_key(keys::ed25519_secret_of(keypair@)->0),
            ),
            id.wf(),
    {
        let key = libp2p_public_key(keypair.encoding());
        PeerId::of_key(key.as_slice())
    }
}

/// The peer identifier of an Ed25519 key is well formed and holds the key in its last 32 bytes.
pub proof fn lemma_ed25519_peer_id(key: Seq<u8>)
    requires
        keys::is_ed25519_key(key),
    ensures
        key.len() == 32,
        ed25519_peer_id(key).len() == 38,
        is_peer_id(ed25519_peer_id(key)),
        ed25519_peer_id(key).subrange(0, 6) == ed25519_header(),
        ed25519_peer_id(key).subrange(6, 38) == key,
{
    reveal(keys::is_ed25519_key);
    assert(ed25519_peer_id(key).subrange(0, 6) =~= ed25519_header());
    assert(ed25519_peer_id(key).subrange(6, 38) =~= key);
}

} // verus!
