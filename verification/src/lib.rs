//! A libp2p transport over iroh endpoints.
//!
//! A node has two names: iroh knows it by the Ed25519 public key of its endpoint, libp2p by a peer
//! identifier. [`helper`] converts between the two, [`transport`] holds the rules by which a
//! transport comes up, listens and dials, and [`protocol`] those by which it accepts connections.
//! [`laws`] states what holds of them together. Nothing in this crate waits for the network: its
//! functions hand out what is to be done, and take what came of it.

pub mod address;
pub mod config;
pub mod error;
pub mod helper;
pub mod keys;
pub mod laws;
pub mod peer;
pub mod protocol;
pub mod transport;

pub use config::{RelayMode, Timeout, TransportConfig};
pub use error::{TransportError, TransportErrorKind};
pub use helper::{
    first_node_id, iroh_node_id_to_multiaddr, libp2p_keypair_to_iroh_secret,
    multiaddr_to_iroh_node_id, node_id_to_peerid, peer_id_to_node_id,
};
pub use keys::{EndpointId, Keypair, SecretKey};
pub use peer::PeerId;
pub use protocol::{Acceptance, Listener, Protocol, TransportEvent};
pub use transport::{
    BindRequest, Connect, Dialing, Identity, Received, Setup, Startup, Transport,
};
