//! Setup message exchanged inside the setup behaviour's upgrade, carrying the
//! application public key of the remote peer.

use super::signed::{HasPublicKey, SignedMessage};
use crate::p2p::clock::{clock_reading, unix_timestamp};
use vstd::prelude::*;

verus! {

/// Setup protocol version.
#[derive(Debug, Clone, PartialEq, Eq)]
pub enum SetupProtocolVersion {
    /// First version.
    V1,
}

/// Setup message structure for the handshake protocol.
#[derive(Debug, Clone, PartialEq)]
pub struct SetupMessage {
    /// Protocol version.
    pub version: SetupProtocolVersion,
    /// The application public key (libp2p protobuf encoding).
    pub app_public_key: Vec<u8>,
    /// Local transport id: the sender's peer id bytes.
    pub local_transport_id: Vec<u8>,
    /// Remote transport id: the destination's peer id bytes.
    pub remote_transport_id: Vec<u8>,
    /// Creation time, seconds since the Unix epoch.
    pub date: u64,
}

impl SetupMessage {
    /// Creates a new setup message stamped with the current time.
    pub fn new(app_public_key: Vec<u8>, local_transport_id: Vec<u8>, remote_transport_id: Vec<
        u8,
    >) -> (m: Self)
        ensures
            m.version == SetupProtocolVersion::V1,
            m.app_public_key@ == app_public_key@,
            m.local_transport_id@ == local_transport_id@,
            m.remote_transport_id@ == remote_transport_id@,
            clock_reading(m.date),
    {
        let timestamp = unix_timestamp();
        SetupMessage {
            version: SetupProtocolVersion::V1,
            app_public_key,
            local_transport_id,
            remote_transport_id,
            date: timestamp,
        }
    }
}

impl HasPublicKey for SetupMessage {
    open spec fn spec_public_key(&self) -> Seq<u8> {
        self.app_public_key@
    }

    fn public_key(&self) -> (k: &[u8]) {
        self.app_public_key.as_slice()
    }
}

/// Signed setup message.
pub type SignedSetupMessage = SignedMessage<SetupMessage>;

} // verus!
