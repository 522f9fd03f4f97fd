//! DHT record type.

use super::signed::{HasPublicKey, SignedMessage};
use crate::p2p::clock::{clock_reading, unix_timestamp};
use vstd::prelude::*;

verus! {

/// DHT record version.
#[derive(Debug, Clone, PartialEq, Eq)]
pub enum DHTProtocolVersion {
    /// First version.
    V1,
}

/// Record published in the DHT.
#[derive(Debug, Clone, PartialEq)]
pub struct RecordData {
    /// Protocol version.
    pub version: DHTProtocolVersion,
    /// The public key (libp2p protobuf encoding).
    pub public_key: Vec<u8>,
    /// Multiaddresses, each as its bytes.
    pub multiaddresses: Vec<Vec<u8>>,
    /// Creation time, seconds since the Unix epoch.
    pub date: u64,
}

impl RecordData {
    /// Creates a new record stamped with the current time.
    pub fn new(public_key: Vec<u8>, multiaddresses: Vec<Vec<u8>>) -> (r: Self)
        ensures
            r.version == DHTProtocolVersion::V1,
            r.public_key@ == public_key@,
            r.multiaddresses@ == multiaddresses@,
            clock_reading(r.date),
    {
        let timestamp = unix_timestamp();
        RecordData { version: DHTProtocolVersion::V1, public_key, multiaddresses, date: timestamp }
    }
}

impl HasPublicKey for RecordData {
    open spec fn spec_public_key(&self) -> Seq<u8> {
        self.public_key@
    }

    fn public_key(&self) -> (k: &[u8]) {
        self.public_key.as_slice()
    }
}

/// Signed DHT record.
pub type SignedRecord = SignedMessage<RecordData>;

} // verus!
