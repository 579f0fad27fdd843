# libp2p-iroh

A libp2p transport over iroh endpoints. Two nodes that know each other's libp2p peer identifier
reach each other through iroh, which finds a route by the Ed25519 public key in that identifier.

- `src/` holds the rules of the transport, verified with Verus:
  - `keys`, `peer`, `address`: Ed25519 keys, peer identifiers and multiaddresses
  - `helper`: conversions between the names that libp2p and iroh give to one node
  - `config`, `error`: the configuration and the errors
  - `protocol`: what becomes of an incoming connection
  - `transport`: how a transport comes up, listens and dials
  - `laws`: what holds of these functions together
- `app/` runs the rules: it binds the endpoint, moves events through channels and implements the
  traits of libp2p and iroh.
- `tests/` runs the rules on concrete values, with the outside crates linked.

The functions of `src/` that call iroh, libp2p or the formatter of `std` are marked
`#[verifier::external_body]`. The comment above each says what is taken of the call without proof.
