//! Message types for request-response requests and responses.

use super::signed::{HasPublicKey, SignedMessage};
use crate::p2p::clock::{clock_reading, unix_timestamp};
use crate::p2p::swarm::message::ProtocolId;
use vstd::prelude::*;

verus! {

/// Request-response *request* protocol version.
#[derive(Debug, Clone, PartialEq, Eq)]
pub enum RRRequestProtocolVersion {
    /// First version.
    V1,
    /// Second, current version.
    V2,
}

/// Request-response *response* protocol version.
#[derive(Debug, Clone, PartialEq, Eq)]
pub enum RRResponseProtocolVersion {
    /// First version.
    V1,
    /// Second, current version.
    V2,
}

/// Request message of the request-response protocol.
#[derive(Debug, Clone, PartialEq)]
pub struct RequestMessage {
    /// Protocol version.
    pub version: RRRequestProtocolVersion,
    /// Protocol identifier (request-response).
    pub protocol: ProtocolId,
    /// Request data.
    pub message: Vec<u8>,
    /// The sender's public key (libp2p protobuf encoding).
    pub public_key: Vec<u8>,
    /// Creation time, seconds since the Unix epoch.
    pub date: u64,
}

impl RequestMessage {
    /// Creates a new request stamped with the current time.
    pub fn new(app_public_key: Vec<u8>, message: Vec<u8>) -> (m: Self)
        ensures
            m.version == RRRequestProtocolVersion::V2,
            m.protocol == ProtocolId::RequestResponse,
            m.message@ == message@,
            m.public_key@ == app_public_key@,
            clock_reading(m.date),
    {
        let timestamp = unix_timestamp();
        RequestMessage {
            version: RRRequestProtocolVersion::V2,
            protocol: ProtocolId::RequestResponse,
            message,
            public_key: app_public_key,
            date: timestamp,
        }
    }
}

impl HasPublicKey for RequestMessage {
    open spec fn spec_public_key(&self) -> Seq<u8> {
        self.public_key@
    }

    fn public_key(&self) -> (k: &[u8]) {
        self.public_key.as_slice()
    }
}

/// Response message of the request-response protocol.
#[derive(Debug, Clone, PartialEq)]
pub struct ResponseMessage {
    /// Protocol version.
    pub version: RRResponseProtocolVersion,
    /// Protocol identifier (request-response).
    pub protocol: ProtocolId,
    /// Response data.
    pub message: Vec<u8>,
    /// The application public key (libp2p protobuf encoding).
    pub app_public_key: Vec<u8>,
    /// Creation time, seconds since the Unix epoch.
    pub date: u64,
}

impl ResponseMessage {
    /// Creates a new response stamped with the current time.
    pub fn new(app_public_key: Vec<u8>, message: Vec<u8>) -> (m: Self)
        ensures
            m.version == RRResponseProtocolVersion::V2,
            m.protocol == ProtocolId::RequestResponse,
            m.message@ == message@,
            m.app_public_key@ == app_public_key@,
            clock_reading(m.date),
    {
        let timestamp = unix_timestamp();
        ResponseMessage {
            version: RRResponseProtocolVersion::V2,
            protocol: ProtocolId::RequestResponse,
            message,
            app_public_key,
            date: timestamp,
        }
    }
}

impl HasPublicKey for ResponseMessage {
    open spec fn spec_public_key(&self) -> Seq<u8> {
        self.app_public_key@
    }

    fn public_key(&self) -> (k: &[u8]) {
        self.app_public_key.as_slice()
    }
}

/// Signed request.
pub type SignedRequestMessage = SignedMessage<RequestMessage>;

/// Signed response.
pub type SignedResponseMessage = SignedMessage<ResponseMessage>;

} // verus!
