//! Signed data: serialized message bytes and their signature.

use crate::p2p::identity::{
    spec_protobuf_key_decodes, spec_protobuf_key_verifies, verify_with_protobuf_key,
};
use crate::p2p::signer::ApplicationSigner;
use crate::p2p::swarm::errors::{SetupError, SetupUpgradeError};
use vstd::prelude::*;

verus! {

/// Wrapper for signed messages.
#[derive(Debug, Clone)]
pub struct SignedData {
    /// The serialized message content.
    pub raw_data: Vec<u8>,
    /// The signature of the message.
    pub signature: [u8; 64],
}

impl SignedData {
    /// Signs serialized message content with `signer`.
    pub fn new<S: ApplicationSigner>(raw_data: Vec<u8>, signer: &S) -> (r: Result<
        Self,
        SetupUpgradeError,
    >)
        ensures
            r matches Ok(d) ==> d.raw_data@ == raw_data@ && signer.signs(raw_data@, d.signature@),
            r matches Err(e) ==> e is SignedMessageCreation,
    {
        match signer.sign(raw_data.as_slice()) {
            Ok(signature) => Ok(SignedData { raw_data, signature }),
            Err(e) => Err(SetupUpgradeError::SignedMessageCreation(e)),
        }
    }

    /// Verifies the signature over the content with `app_public_key` (libp2p
    /// protobuf encoding); an error when the key does not decode.
    pub fn verify_signature(&self, app_public_key: &[u8]) -> (r: Result<bool, SetupError>)
        ensures
            r is Ok <==> spec_protobuf_key_decodes(app_public_key@),
            r matches Ok(b) ==> b == spec_protobuf_key_verifies(
                app_public_key@,
                self.raw_data@,
                self.signature@,
            ),
            r matches Err(e) ==> e is AppPublicKeyInvalid,
    {
        match verify_with_protobuf_key(app_public_key, self.raw_data.as_slice(), &self.signature) {
            Ok(b) => Ok(b),
            Err(e) => Err(SetupError::AppPublicKeyInvalid(e)),
        }
    }
}

} // verus!
