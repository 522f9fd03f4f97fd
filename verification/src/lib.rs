//! Verified core of a peer-to-peer messaging stack: wire formats for the
//! handshake messages, length-prefixed framing, connection admission rules,
//! dial bookkeeping, peer filtering and the small state machines that drive
//! record republishing, together with the key/value storage helpers.
//!
//! Networking, timers, threads and serde live outside this crate; they hand
//! plain values to the functions here and act on what comes back.

pub mod db;
pub mod p2p;
