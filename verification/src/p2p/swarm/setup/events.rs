//! Events of the setup protocol.

use crate::p2p::swarm::errors::SetupError;
use vstd::prelude::*;

verus! {

/// Events the setup behaviour hands to the swarm: handler events together
/// with the transport id (peer id bytes) and connection they concern.
#[derive(Debug, Clone, PartialEq, Eq)]
pub enum SetupBehaviourEvent {
    /// The peer's application public key was received and checked.
    AppKeyReceived { transport_id: Vec<u8>, app_public_key: Vec<u8>, conn_id: usize },
    /// The peers could not agree on the setup protocol.
    NegotiationFailed { transport_id: Vec<u8>, conn_id: usize },
    /// The handshake failed.
    ErrorDuringSetupHandshake { transport_id: Vec<u8>, conn_id: usize, error: SetupError },
}

/// Events a connection handler hands to the setup behaviour.
#[derive(Debug, Clone, PartialEq, Eq)]
pub enum SetupHandlerEvent {
    /// The peer's application public key was received and checked.
    AppKeyReceived { app_public_key: Vec<u8> },
    /// The peers could not agree on the setup protocol; the connection is
    /// dropped.
    NegotiationFailed,
    /// Something failed during the handshake.
    ErrorDuringSetupHandshake(SetupError),
}

} // verus!
