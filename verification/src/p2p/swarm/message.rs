//! Message types for P2P protocol communication: protocol versions and
//! identifiers, and the signed wrapper whose content is serialized message
//! bytes.

pub mod dht_record;
pub mod gossipsub;
pub mod request_response;
pub mod setup;
pub mod signed;

use crate::p2p::clock::{clock_reading, unix_timestamp};
use crate::p2p::identity::{
    spec_protobuf_key_decodes, spec_protobuf_key_verifies, verify_with_protobuf_key,
};
use crate::p2p::signer::ApplicationSigner;
use crate::p2p::swarm::errors::{MessageError, SetupError};
use vstd::prelude::*;

verus! {

/// Protocol version for all messages.
#[derive(Debug, Clone, Copy, PartialEq, Eq, Hash)]
pub enum ProtocolVersion {
    /// Version 1 of the protocol.
    V1,
    /// Version 2 of the protocol.
    V2,
}

impl ProtocolVersion {
    /// The version's number on the wire.
    pub open spec fn spec_to_u8(self) -> u8 {
        match self {
            ProtocolVersion::V1 => 1,
            ProtocolVersion::V2 => 2,
        }
    }

    /// The version's number on the wire.
    pub fn to_u8(self) -> (n: u8)
        ensures
            n == self.spec_to_u8(),
    {
        match self {
            ProtocolVersion::V1 => 1,
            ProtocolVersion::V2 => 2,
        }
    }

    /// The version a number names: 1 and 2 are known.
    pub fn try_from_u8(value: u8) -> (r: Result<ProtocolVersion, &'static str>)
        ensures
            r is Ok <==> (value == 1 || value == 2),
            r matches Ok(v) ==> v.spec_to_u8() == value,
            r matches Err(e) ==> e@ == "Invalid protocol version"@,
    {
        if value == 1 {
            Ok(ProtocolVersion::V1)
        } else if value == 2 {
            Ok(ProtocolVersion::V2)
        } else {
            proof {
                reveal_strlit("Invalid protocol version");
            }
            Err("Invalid protocol version")
        }
    }

    /// The current version, 2.
    pub fn default_version() -> (v: ProtocolVersion)
        ensures
            v == ProtocolVersion::V2,
    {
        ProtocolVersion::V2
    }
}

/// Protocol identifiers for different message types.
#[derive(Debug, Clone, Copy, PartialEq, Eq, Hash)]
pub enum ProtocolId {
    /// Setup protocol for peer handshake.
    Setup,
    /// Gossipsub protocol for pub/sub messaging.
    Gossip,
    /// Request-response protocol for direct communication.
    RequestResponse,
}

impl ProtocolId {
    /// The identifier's number on the wire.
    pub open spec fn spec_to_u8(self) -> u8 {
        match self {
            ProtocolId::Setup => 1,
            ProtocolId::Gossip => 2,
            ProtocolId::RequestResponse => 3,
        }
    }

    /// The identifier's number on the wire.
    pub fn to_u8(self) -> (n: u8)
        ensures
            n == self.spec_to_u8(),
    {
        match self {
            ProtocolId::Setup => 1,
            ProtocolId::Gossip => 2,
            ProtocolId::RequestResponse => 3,
        }
    }

    /// The identifier a number names: 1, 2 and 3 are known.
    pub fn try_from_u8(value: u8) -> (r: Result<ProtocolId, &'static str>)
        ensures
            r is Ok <==> (1 <= value <= 3),
            r matches Ok(p) ==> p.spec_to_u8() == value,
            r matches Err(e) ==> e@ == "Invalid protocol ID"@,
    {
        if value == 1 {
            Ok(ProtocolId::Setup)
        } else if value == 2 {
            Ok(ProtocolId::Gossip)
        } else if value == 3 {
            Ok(ProtocolId::RequestResponse)
        } else {
            proof {
                reveal_strlit("Invalid protocol ID");
            }
            Err("Invalid protocol ID")
        }
    }
}

/// Law: every protocol version and identifier reads back from its number.
pub proof fn lemma_protocol_numbers_roundtrip(v: ProtocolVersion, p: ProtocolId)
    ensures
        v.spec_to_u8() == 1 || v.spec_to_u8() == 2,
        1 <= p.spec_to_u8() <= 3,
        forall|w: ProtocolVersion| w.spec_to_u8() == v.spec_to_u8() ==> w == v,
        forall|q: ProtocolId| q.spec_to_u8() == p.spec_to_u8() ==> q == p,
{
}

/// Seconds since the Unix epoch now; 0 when the clock reads a time before
/// the epoch.
pub fn get_timestamp() -> (r: u64)
    ensures
        clock_reading(r),
{
    unix_timestamp()
}

/// Wrapper for signed messages: serialized message content and its
/// signature.
#[derive(Debug, Clone)]
pub struct SignedMessage {
    /// The serialized message content.
    pub message: Vec<u8>,
    /// The signature of the message.
    pub signature: [u8; 64],
}

impl SignedMessage {
    /// Signs serialized message content with `signer`.
    pub fn new<S: ApplicationSigner>(message_bytes: Vec<u8>, signer: &S) -> (r: Result<
        Self,
        MessageError,
    >)
        ensures
            r matches Ok(m) ==> m.message@ == message_bytes@ && signer.signs(
                message_bytes@,
                m.signature@,
            ),
            r matches Err(e) ==> e is SignedMessageCreation,
    {
        match signer.sign(message_bytes.as_slice()) {
            Ok(signature) => Ok(SignedMessage { message: message_bytes, signature }),
            Err(e) => Err(MessageError::SignedMessageCreation(e)),
        }
    }

    /// Verifies the signature over the content with `app_public_key` (libp2p
    /// protobuf encoding); an error when the key does not decode.
    pub fn verify_signature(&self, app_public_key: &[u8]) -> (r: Result<bool, SetupError>)
        ensures
            r is Ok <==> spec_protobuf_key_decodes(app_public_key@),
            r matches Ok(b) ==> b == spec_protobuf_key_verifies(
                app_public_key@,
                self.message@,
                self.signature@,
            ),
            r matches Err(e) ==> e is AppPublicKeyInvalid,
    {
        match verify_with_protobuf_key(app_public_key, self.message.as_slice(), &self.signature) {
            Ok(b) => Ok(b),
            Err(e) => Err(SetupError::AppPublicKeyInvalid(e)),
        }
    }
}

} // verus!
