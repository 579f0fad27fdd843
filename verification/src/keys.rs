//! Ed25519 keys as both sides of the transport hold them: the identifier of an iroh endpoint,
//! the secret key behind it, and the key pair that libp2p identifies a node by.

use vstd::prelude::*;

verus! {

/// The prime `2^255 - 19` over which the curve is defined.
pub open spec fn field_prime() -> int {
    0x7fffffffffffffffffffffffffffffffffffffffffffffffffffffffffffffedint
}

/// The coefficient `d = -121665 / 121666` of the curve.
pub open spec fn edwards_d() -> int {
    0x52036cee2b6ffe738cc740797779e89800700a4d4141d8ab75eb4dca135978a3int
}

/// The number whose little-endian digits in base 256 are `bytes`.
pub open spec fn little_endian(bytes: Seq<u8>) -> int
    decreases bytes.len(),
{
    if bytes.len() == 0 {
        0
    } else {
        bytes[0] + 256 * little_endian(bytes.drop_first())
    }
}

/// `(x, y)` is a point of the curve `-x^2 + y^2 = 1 + d x^2 y^2`, in the field of integers
/// modulo `field_prime()`.
pub open spec fn on_curve(x: int, y: int) -> bool {
    (y * y - x * x - 1 - edwards_d() * (x * x) * (y * y)) % field_prime() == 0
}

/// `bytes` is an Ed25519 public key: 32 bytes whose low 255 bits are the `y` coordinate of a
/// point of the curve. (The top bit only tells the sign of `x`.)
#[verifier::opaque]
pub open spec fn is_ed25519_key(bytes: Seq<u8>) -> bool {
    &&& bytes.len() == 32
    &&& exists|x: int|
        #[trigger] on_curve(
            x,
            little_endian(bytes)
                % 0x8000000000000000000000000000000000000000000000000000000000000000int,
        )
}

/// The bytes that an optional byte string holds.
pub open spec fn bytes_of(bytes: Option<Vec<u8>>) -> Option<Seq<u8>> {
    match bytes {
        Some(b) => Some(b@),
        None => None,
    }
}

/// The Ed25519 public key that belongs to the secret key `secret`.
pub uninterp spec fn ed25519_public_key(secret: Seq<u8>) -> Seq<u8>;

/// The secret key of the libp2p key pair that `encoding` decodes to, if it does decode and is an
/// Ed25519 pair.
pub uninterp spec fn ed25519_secret_of(encoding: Seq<u8>) -> Option<Seq<u8>>;

/// `encoding` is what libp2p writes for an Ed25519 key pair: a protobuf message with the key
/// type and with the 32 bytes of the secret key followed by those of its public key.
pub open spec fn is_ed25519_encoding(encoding: Seq<u8>) -> bool {
    &&& encoding.len() == 68
    &&& encoding.subrange(0, 4) == seq![0x08u8, 0x01u8, 0x12u8, 0x40u8]
    &&& encoding.subrange(36, 68) == ed25519_public_key(encoding.subrange(4, 36))
}

/// Calls `iroh::EndpointId::from_bytes` and tells whether it accepts `bytes`. It does so for
/// Ed25519 public keys and for nothing else; the identifier that it then makes holds the bytes
/// unchanged.
#[verifier::external_body]
fn iroh_accepts_key(bytes: &[u8; 32]) -> (accepted: bool)
    ensures
        accepted == is_ed25519_key(bytes@),
{
    iroh::EndpointId::from_bytes(bytes).is_ok()
}

/// Calls `iroh::SecretKey::public`. The claim is that the public key depends on the secret
/// bytes alone, and that it is a valid key.
#[verifier::external_body]
fn iroh_public_key(secret: &[u8; 32]) -> (key: [u8; 32])
    ensures
        key@ == ed25519_public_key(secret@),
        is_ed25519_key(key@),
{
    *iroh::SecretKey::from_bytes(secret).public().as_bytes()
}

/// Calls `iroh::SecretKey::generate`, which draws 32 random bytes. Nothing is claimed of them.
#[verifier::external_body]
fn iroh_random_secret() -> [u8; 32] {
    iroh::SecretKey::generate().to_bytes()
}

/// Calls `libp2p::identity::Keypair::try_into_ed25519` on the key pair that `encoding` decodes
/// to, and hands out its secret key. The claims are that the outcome depends on the encoding
/// alone, that a secret key has 32 bytes, and that the encoding which libp2p writes for an
/// Ed25519 key pair decodes to the secret key in it.
#[verifier::external_body]
pub(crate) fn libp2p_ed25519_secret(encoding: &[u8]) -> (secret: Option<Vec<u8>>)
    ensures
        bytes_of(secret) == ed25519_secret_of(encoding@),
        secret matches Some(s) ==> s@.len() == 32,
        is_ed25519_encoding(encoding@) ==> bytes_of(secret) == Some(encoding@.subrange(4, 36)),
{
    let keypair = libp2p::identity::Keypair::from_protobuf_encoding(encoding).ok()?;
    let ed25519 = keypair.try_into_ed25519().ok()?;
    Some(ed25519.secret().as_ref().to_vec())
}

/// The hexadecimal digit for a number below 16.
pub open spec fn hex_digit(n: int) -> char {
    "0123456789abcdef"@[n]
}

/// How an endpoint identifier is shown: its bytes with two hexadecimal digits each.
pub open spec fn endpoint_text(bytes: Seq<u8>) -> Seq<char> {
    "PublicKey("@ + Seq::new(
        2 * bytes.len(),
        |i: int|
            hex_digit(
                if i % 2 == 0 {
                    bytes[i / 2] / 16
                } else {
                    bytes[i / 2] % 16
                } as int,
            ),
    ) + ")"@
}

/// Formats an `iroh::EndpointId` with `{:?}`, by its `Debug`: the bytes of the key in lower-case
/// hexadecimal digits, behind the name of the type.
#[verifier::external_body]
fn iroh_endpoint_text(bytes: &[u8; 32]) -> (text: String)
    requires
        is_ed25519_key(bytes@),
    ensures
        text@ == endpoint_text(bytes@),
{
    let id = iroh::EndpointId::from_bytes(bytes).expect("a valid key");
    format!("{id:?}")
}

/// The identifier of an iroh endpoint: a valid Ed25519 public key.
#[derive(Clone, Copy, Debug, PartialEq, Eq, Hash)]
pub struct EndpointId {
    bytes: [u8; 32],
}

impl View for EndpointId {
    type V = Seq<u8>;

    closed spec fn view(&self) -> Seq<u8> {
        self.bytes@
    }
}

impl EndpointId {
    /// An endpoint identifier is a valid key.
    pub open spec fn wf(self) -> bool {
        is_ed25519_key(self@)
    }

    #[verifier::type_invariant]
    closed spec fn inv(self) -> bool {
        is_ed25519_key(self.bytes@)
    }

    /// Takes `bytes` as an endpoint identifier, if they are a valid key.
    pub fn from_bytes(bytes: &[u8; 32]) -> (id: Option<EndpointId>)
        ensures
            id is Some <==> is_ed25519_key(bytes@),
            id matches Some(id) ==> id@ == bytes@,
    {
        if iroh_accepts_key(bytes) {
            Some(EndpointId { bytes: *bytes })
        } else {
            None
        }
    }

    /// The 32 bytes of the key.
    pub fn as_bytes(&self) -> (bytes: &[u8; 32])
        ensures
            bytes@ == self@,
            self.wf(),
    {
        proof {
            use_type_invariant(self);
        }
        &self.bytes
    }

    /// The identifier as it is shown to a developer.
    pub fn debug_text(&self) -> (text: String)
        ensures
            text@ == endpoint_text(self@),
    {
        proof {
            use_type_invariant(self);
        }
        iroh_endpoint_text(&self.bytes)
    }
}

/// The secret key of an iroh endpoint.
#[derive(Clone, Copy)]
pub struct SecretKey {
    bytes: [u8; 32],
}

impl View for SecretKey {
    type V = Seq<u8>;

    closed spec fn view(&self) -> Seq<u8> {
        self.bytes@
    }
}

impl SecretKey {
    /// Takes `bytes` as a secret key. Any 32 bytes are one.
    pub fn from_bytes(bytes: &[u8; 32]) -> (key: SecretKey)
        ensures
            key@ == bytes@,
    {
        SecretKey { bytes: *bytes }
    }

    /// Takes the bytes of `slice` as a secret key, if there are 32 of them.
    pub fn from_slice(slice: &[u8]) -> (key: Option<SecretKey>)
        ensures
            key is Some <==> slice@.len() == 32,
            key matches Some(key) ==> key@ == slice@,
    {
        match key_bytes(slice) {
            Some(bytes) => Some(SecretKey { bytes }),
            None => None,
        }
    }

    /// Draws a random secret key.
    pub fn generate() -> (key: SecretKey)
        ensures
            key@.len() == 32,
    {
        let bytes = iroh_random_secret();
        SecretKey { bytes }
    }

    /// The 32 bytes of the key.
    pub fn to_bytes(&self) -> (bytes: [u8; 32])
        ensures
            bytes@ == self@,
    {
        self.bytes
    }

    /// The identifier of the endpoint that runs under this key.
    pub fn public(&self) -> (id: EndpointId)
        ensures
            id@ == ed25519_public_key(self@),
            id.wf(),
    {
        EndpointId { bytes: iroh_public_key(&self.bytes) }
    }
}

/// A libp2p identity key pair, held in its protobuf encoding. It is decoded where it is used: an
/// encoding that does not decode belongs to no usable key pair.
pub struct Keypair {
    encoding: Vec<u8>,
}

impl View for Keypair {
    type V = Seq<u8>;

    closed spec fn view(&self) -> Seq<u8> {
        self.encoding@
    }
}

impl Keypair {
    /// The key pair with the given protobuf encoding.
    pub fn from_protobuf_encoding(encoding: Vec<u8>) -> (keypair: Keypair)
        ensures
            keypair@ == encoding@,
    {
        Keypair { encoding }
    }

    /// The protobuf encoding of the key pair.
    pub fn encoding(&self) -> (encoding: &[u8])
        ensures
            encoding@ == self@,
    {
        self.encoding.as_slice()
    }
}

/// The bytes of `slice` as an array, if there are exactly 32 of them.
pub fn key_bytes(slice: &[u8]) -> (bytes: Option<[u8; 32]>)
    ensures
        bytes is Some <==> slice@.len() == 32,
        bytes matches Some(b) ==> b@ == slice@,
{
    if slice.len() != 32 {
        return None;
    }
    let mut bytes: [u8; 32] = [0u8; 32];
    for i in 0..32usize
        invariant
            slice@.len() == 32,
            bytes@.take(i as int) == slice@.take(i as int),
    {
        bytes[i] = slice[i];
        assert(bytes@.take(i + 1) =~= slice@.take(i + 1)) by {
            assert(bytes@.take(i as int) == slice@.take(i as int));
        }
    }
    assert(bytes@ =~= slice@) by {
        assert(bytes@.take(32) =~= bytes@);
        assert(slice@.take(32) =~= slice@);
    }
    Some(bytes)
}

} // verus!
