//! The record a node publishes in the DHT, and the check of a record read
//! back from it.
//!
//! A record travels as JSON inside a signed wrapper, itself JSON; the JSON
//! (and the UTF-8 under it) is read outside the library, and what it gives
//! is checked here.

use crate::p2p::clock::{clock_reading, unix_timestamp};
use crate::p2p::identity::{
    spec_protobuf_key_decodes, spec_protobuf_key_verifies, verify_with_protobuf_key,
};
use crate::p2p::signer::ApplicationSigner;
use crate::p2p::swarm::signed_data::SignedData;
use vstd::prelude::*;

verus! {

/// Protocol version for DHT records.
pub const DHT_PROTOCOL_VERSION: u8 = 0;

/// Protocol identifier for DHT records.
pub const DHT_PROTOCOL_ID: u8 = 0;

/// Record structure for DHT.
#[derive(Debug, Clone, PartialEq, Eq)]
pub struct RecordData {
    /// Protocol version.
    pub version: u8,
    /// Protocol identifier.
    pub protocol: u8,
    /// The application public key (libp2p protobuf encoding).
    pub app_public_key: Vec<u8>,
    /// Transport id (peer id bytes).
    pub transport_id: Vec<u8>,
    /// Multiaddresses, each as its bytes.
    pub multiaddresses: Vec<Vec<u8>>,
    /// Timestamp of message creation.
    pub date: u64,
}

impl RecordData {
    /// A record of this node, stamped with the current time.
    pub fn new(app_public_key: Vec<u8>, transport_id: Vec<u8>, multiaddresses: Vec<Vec<u8>>) -> (r:
        Self)
        ensures
            r.version == DHT_PROTOCOL_VERSION,
            r.protocol == DHT_PROTOCOL_ID,
            r.app_public_key@ == app_public_key@,
            r.transport_id@ == transport_id@,
            r.multiaddresses@ == multiaddresses@,
            clock_reading(r.date),
    {
        let timestamp = unix_timestamp();
        RecordData {
            version: DHT_PROTOCOL_VERSION,
            protocol: DHT_PROTOCOL_ID,
            app_public_key,
            transport_id,
            date: timestamp,
            multiaddresses,
        }
    }
}

/// Checks a record read from the DHT: `signed` is the wrapper, `record` the
/// record its raw data decodes to (`None` when it does not). The record is
/// returned when its own key signed the raw data, and dropped otherwise.
pub fn validate_dht_record(signed: &SignedData, record: Option<RecordData>) -> (r: Option<
    RecordData,
>)
    ensures
        record is None ==> r is None,
        record matches Some(rec) ==> (r is Some <==> (spec_protobuf_key_decodes(
            rec.app_public_key@,
        ) && spec_protobuf_key_verifies(
            rec.app_public_key@,
            signed.raw_data@,
            signed.signature@,
        ))),
        r matches Some(out) ==> record == Some(out),
{
    match record {
        None => None,
        Some(rec) => match signed.verify_signature(rec.app_public_key.as_slice()) {
            Ok(true) => Some(rec),
            _ => None,
        },
    }
}

/// A record's serialized bytes with the signature over them.
#[derive(Debug, Clone)]
pub struct SignedRecordData {
    /// The serialized record data.
    pub record: Vec<u8>,
    /// The signature of the record.
    pub signature: [u8; 64],
}

impl SignedRecordData {
    /// Signs the serialized record `record` with `signer`; the signer's error
    /// is passed on.
    pub fn new<S: ApplicationSigner>(record: Vec<u8>, signer: &S) -> (r: Result<Self, String>)
        ensures
            r matches Ok(d) ==> d.record@ == record@ && signer.signs(record@, d.signature@),
    {
        match signer.sign(record.as_slice()) {
            Ok(signature) => Ok(SignedRecordData { record, signature }),
            Err(e) => Err(e),
        }
    }

    /// Whether `app_public_key` (libp2p protobuf encoding) signed the record;
    /// false when the key does not decode.
    pub fn verify_signature(&self, app_public_key: &[u8]) -> (r: bool)
        ensures
            r <==> (spec_protobuf_key_decodes(app_public_key@) && spec_protobuf_key_verifies(
                app_public_key@,
                self.record@,
                self.signature@,
            )),
    {
        match verify_with_protobuf_key(app_public_key, self.record.as_slice(), &self.signature) {
            Ok(b) => b,
            Err(_) => false,
        }
    }
}

} // verus!
