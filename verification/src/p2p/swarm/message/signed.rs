//! Common traits and the signed message wrapper.
//!
//! A message is signed over its serialized form; the serializer is the
//! caller's, which hands the serialized bytes to the functions here.

use crate::p2p::identity::{
    spec_protobuf_key_decodes, spec_protobuf_key_verifies, verify_with_protobuf_key,
};
use crate::p2p::signer::ApplicationSigner;
use vstd::prelude::*;

verus! {

/// Trait for messages that can provide their public key (libp2p protobuf
/// encoding).
pub trait HasPublicKey {
    /// The key the message names.
    spec fn spec_public_key(&self) -> Seq<u8>;

    /// The key the message names.
    fn public_key(&self) -> (k: &[u8])
        ensures
            k@ == self.spec_public_key(),
    ;
}

/// Signed message.
#[derive(Debug, Clone, PartialEq)]
pub struct SignedMessage<M> {
    /// Underlying message.
    pub message: M,
    /// Signature of the serialized message by the application keypair, to be
    /// verified with the public key from the message.
    pub signature: [u8; 64],
}

impl<M: HasPublicKey> SignedMessage<M> {
    /// Signs `message`, whose serialized form is `serialized`, with `signer`.
    pub fn new<S: ApplicationSigner>(message: M, serialized: &[u8], signer: &S) -> (r: Result<
        Self,
        String,
    >)
        ensures
            r matches Ok(m) ==> m.message == message && signer.signs(serialized@, m.signature@),
    {
        match signer.sign(serialized) {
            Ok(signature) => Ok(SignedMessage { message, signature }),
            Err(e) => Err(e),
        }
    }

    /// Verifies the signature over `serialized`, the serialized message, with
    /// the message's own key; an error when that key does not decode.
    pub fn verify(&self, serialized: &[u8]) -> (r: Result<bool, String>)
        ensures
            r is Ok <==> spec_protobuf_key_decodes(self.message.spec_public_key()),
            r matches Ok(b) ==> b == spec_protobuf_key_verifies(
                self.message.spec_public_key(),
                serialized@,
                self.signature@,
            ),
    {
        let key = self.message.public_key();
        verify_with_protobuf_key(key, serialized, &self.signature)
    }
}

} // verus!
