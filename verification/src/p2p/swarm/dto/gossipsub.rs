//! The gossipsub message record.

use super::get_timestamp;
use crate::p2p::clock::clock_reading;
use super::signed::{HasAppPublicKey, SignedMessage};
use super::ProtocolId;
use vstd::prelude::*;

verus! {

/// Gossipsub protocol version.
#[derive(Debug, Clone, PartialEq, Eq)]
pub enum GossipSubProtocolVersion {
    /// First version.
    V1,
    /// Second, current version.
    V2,
}

/// Gossipsub message structure for the gossipsub protocol.
#[derive(Debug, Clone, PartialEq)]
pub struct GossipMessage {
    /// Protocol version.
    pub version: GossipSubProtocolVersion,
    /// Protocol identifier (gossipsub).
    pub protocol: ProtocolId,
    /// Gossipsub message data.
    pub message: Vec<u8>,
    /// The application public key (libp2p protobuf encoding).
    pub app_public_key: Vec<u8>,
    /// Creation time, seconds since the Unix epoch.
    pub date: u64,
}

impl GossipMessage {
    /// Creates a new gossipsub message stamped with the current time.
    pub fn new(app_public_key: Vec<u8>, message: Vec<u8>) -> (m: Self)
        ensures
            m.version == GossipSubProtocolVersion::V2,
            m.protocol == ProtocolId::Gossip,
            m.message@ == message@,
            m.app_public_key@ == app_public_key@,
            clock_reading(m.date),
    {
        let timestamp = get_timestamp();
        GossipMessage {
            version: GossipSubProtocolVersion::V2,
            protocol: ProtocolId::Gossip,
            message,
            app_public_key,
            date: timestamp,
        }
    }
}

impl HasAppPublicKey for GossipMessage {
    open spec fn spec_app_public_key(&self) -> Seq<u8> {
        self.app_public_key@
    }

    fn app_public_key(&self) -> (k: &[u8]) {
        self.app_public_key.as_slice()
    }
}

/// Signed gossipsub message.
pub type SignedGossipsubMessage = SignedMessage<GossipMessage>;

} // verus!
