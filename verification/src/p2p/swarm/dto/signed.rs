//! The signed wrapper of a record, signed over the record's serialized
//! form; the serializer is the caller's, which hands the bytes in.

use crate::p2p::identity::{
    spec_protobuf_key_decodes, spec_protobuf_key_verifies, verify_with_protobuf_key,
};
use crate::p2p::signer::{ApplicationSigner, TransportKeypairSigner};
use vstd::prelude::*;

verus! {

/// Records that name their application public key.
pub trait HasAppPublicKey {
    /// The application key (libp2p protobuf encoding).
    spec fn spec_app_public_key(&self) -> Seq<u8>;

    /// The application key (libp2p protobuf encoding).
    fn app_public_key(&self) -> (k: &[u8])
        ensures
            k@ == self.spec_app_public_key(),
    ;
}

/// Signed message.
#[derive(Debug, Clone, PartialEq)]
pub struct SignedMessage<M> {
    /// Underlying message.
    pub message: M,
    /// Signature of the serialized message by the application keypair, to be
    /// verified with the application key from the message.
    pub signature: [u8; 64],
}

impl<M: HasAppPublicKey> SignedMessage<M> {
    /// Signs `message`, whose serialized form is `serialized`, with `signer`;
    /// the signer's error is passed on.
    pub fn new<S: ApplicationSigner>(message: M, serialized: &[u8], signer: &S) -> (r: Result<
        Self,
        String,
    >)
        ensures
            r matches Ok(m) ==> m.message == message && signer.signs(serialized@, m.signature@),
    {
        match signer.sign(serialized) {
            Ok(signature) => Ok(SignedMessage { message, signature }),
            Err(e) => Err(e),
        }
    }

    /// Verifies the signature over `serialized`, the serialized message, with
    /// the message's application key; an error when the key does not decode.
    pub fn verify(&self, serialized: &[u8]) -> (r: Result<bool, String>)
        ensures
            r is Ok <==> spec_protobuf_key_decodes(self.message.spec_app_public_key()),
            r matches Ok(b) ==> b == spec_protobuf_key_verifies(
                self.message.spec_app_public_key(),
                serialized@,
                self.signature@,
            ),
    {
        verify_with_protobuf_key(self.message.app_public_key(), serialized, &self.signature)
    }
}

/// Law: a message signed by a transport keypair signer, whose application key
/// is that signer's public key, passes `verify`: the key decodes and the
/// signature verifies over the serialized message.
pub proof fn lemma_signed_message_verifies<M: HasAppPublicKey>(
    signer: TransportKeypairSigner,
    m: SignedMessage<M>,
    serialized: Seq<u8>,
)
    requires
        signer.signs(serialized, m.signature@),
        m.message.spec_app_public_key() == signer.spec_public_key(),
    ensures
        spec_protobuf_key_decodes(m.message.spec_app_public_key()),
        spec_protobuf_key_verifies(m.message.spec_app_public_key(), serialized, m.signature@),
{
    signer.lemma_signatures_verify(serialized, m.signature@);
}

} // verus!
