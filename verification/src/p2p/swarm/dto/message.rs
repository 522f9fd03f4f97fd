//! The setup message record of the handshake.

use super::get_timestamp;
use crate::p2p::clock::clock_reading;
use super::signed::{HasAppPublicKey, SignedMessage};
use vstd::prelude::*;

verus! {

/// The setup protocol's version.
pub const SETUP_PROTOCOL_VERSION: u8 = 2;

/// Setup message of the handshake.
#[derive(Debug, Clone, PartialEq)]
pub struct SetupMessage {
    /// Protocol version.
    pub version: u8,
    /// The application public key (libp2p protobuf encoding).
    pub app_public_key: Vec<u8>,
    /// The sender's transport id (peer id bytes).
    pub local_transport_id: Vec<u8>,
    /// The receiver's transport id (peer id bytes).
    pub remote_transport_id: Vec<u8>,
    /// Creation time, seconds since the Unix epoch.
    pub date: u64,
}

impl SetupMessage {
    /// Creates a new setup message stamped with the current time.
    pub fn new(app_public_key: Vec<u8>, local_transport_id: Vec<u8>, remote_transport_id: Vec<u8>) -> (m:
        Self)
        ensures
            m.version == SETUP_PROTOCOL_VERSION,
            m.app_public_key@ == app_public_key@,
            m.local_transport_id@ == local_transport_id@,
            m.remote_transport_id@ == remote_transport_id@,
            clock_reading(m.date),
    {
        let timestamp = get_timestamp();
        SetupMessage {
            version: SETUP_PROTOCOL_VERSION,
            app_public_key,
            local_transport_id,
            remote_transport_id,
            date: timestamp,
        }
    }
}

impl HasAppPublicKey for SetupMessage {
    open spec fn spec_app_public_key(&self) -> Seq<u8> {
        self.app_public_key@
    }

    fn app_public_key(&self) -> (k: &[u8]) {
        self.app_public_key.as_slice()
    }
}

/// Signed setup message.
pub type SignedSetupMessage = SignedMessage<SetupMessage>;

} // verus!
