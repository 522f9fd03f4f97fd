//! The record a node publishes in the DHT.

use super::get_timestamp;
use crate::p2p::clock::clock_reading;
use super::signed::{HasAppPublicKey, SignedMessage};
use vstd::prelude::*;

verus! {

/// DHT record version.
#[derive(Debug, Clone, PartialEq, Eq)]
pub enum DHTProtocolVersion {
    /// First version.
    V1,
}

/// Record published in the DHT.
#[derive(Debug, Clone, PartialEq)]
pub struct RecordData {
    /// Protocol version.
    pub version: DHTProtocolVersion,
    /// The application public key (libp2p protobuf encoding).
    pub app_public_key: Vec<u8>,
    /// Multiaddresses, each as its bytes.
    pub multiaddresses: Vec<Vec<u8>>,
    /// Creation time, seconds since the Unix epoch.
    pub date: u64,
}

impl RecordData {
    /// Creates a new record stamped with the current time.
    pub fn new(app_public_key: Vec<u8>, multiaddresses: Vec<Vec<u8>>) -> (r: Self)
        ensures
            r.version == DHTProtocolVersion::V1,
            r.app_public_key@ == app_public_key@,
            r.multiaddresses@ == multiaddresses@,
            clock_reading(r.date),
    {
        let timestamp = get_timestamp();
        RecordData { version: DHTProtocolVersion::V1, app_public_key, date: timestamp, multiaddresses }
    }
}

impl HasAppPublicKey for RecordData {
    open spec fn spec_app_public_key(&self) -> Seq<u8> {
        self.app_public_key@
    }

    fn app_public_key(&self) -> (k: &[u8]) {
        self.app_public_key.as_slice()
    }
}

/// Signed DHT record.
pub type SignedRecord = SignedMessage<RecordData>;

} // verus!
