# strata_p2p

The core of a peer-to-peer node for operators that exchange signed messages
over libp2p: gossip to everyone, requests and responses between two peers,
and a handshake that binds each connection to the long-term application key
of the operator behind it.

`src/` is the library, written in Verus and verified:

- `p2p::message`, `p2p::wire`: the binary setup message and its exact
  encoding and decoding.
- `p2p::swarm::setup`: the handshake's state machines (connection handler,
  behaviour bookkeeping, upgrades, frame codec).
- `p2p::swarm::node`: the decisions of the node's event loop: which inbound
  messages are accepted (signature, sender, freshness, allow list), which
  peers stay after setup, how a peer is dialed at its addresses, the node's
  settings.
- `p2p::swarm::penalty`: what a mute or a ban does, and the record of the
  penalties in force.
- `p2p::swarm::{dial_manager, filtering, kad_republish, dto, message,
  dht_record, ...}`: the bookkeeping and records around them.
- `db`: storage keys, deposit states, storage errors and helpers over sled.

Calls into libp2p, sled, bitcoin's hashes, bytes and cynosure's queue go through
small trusted functions whose contracts state what those crates document.

`app/` is ordinary Rust around the library: the libp2p swarm and its event
loop, channels and handles, serde forms of the records, the repository over
sled, and peer scores.

`tests/` runs the library on concrete values with the real outside crates.
