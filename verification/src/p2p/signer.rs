//! Application signer trait for P2P message signing.
//!
//! Service libraries implement [`ApplicationSigner`] to sign messages without
//! handing private keys to this crate.

use crate::p2p::identity::{spec_protobuf_key_decodes, spec_protobuf_key_verifies};
use libp2p_identity::Keypair;
use std::sync::Arc;
use vstd::prelude::*;

verus! {

/// Trait for signing setup messages with application private keys.
///
/// An implementation signs with the keypair whose public key the node
/// announces as its application public key. Errors are described by text.
pub trait ApplicationSigner {
    /// Whether `signature` is a signature of this signer over `message`.
    /// A signer that states no relation of its own claims nothing of its
    /// signatures: every signature counts. The signers of this crate each
    /// state theirs.
    open spec fn signs(&self, message: Seq<u8>, signature: Seq<u8>) -> bool {
        true
    }

    /// Signs `message` with the application private key; a signature it
    /// returns is one of its signatures over `message`.
    fn sign(&self, message: &[u8]) -> (r: Result<[u8; 64], String>)
        ensures
            r matches Ok(s) ==> self.signs(message@, s@),
    ;
}

#[verifier::external_type_specification]
#[verifier::external_body]
pub struct ExKeypair(Keypair);

/// Trusted: `Keypair::sign(message)`, which its documentation describes as
/// producing a signature that verifies under the keypair's public key: so
/// a signature it returns verifies, over `message`, under every public key
/// [`keypair_public_key`] reads from the same keypair. The bytes themselves
/// depend on the private key, which this crate does not see; the error is
/// the signing error's text.
#[verifier::external_body]
fn keypair_sign(keypair: &Keypair, message: &[u8]) -> (r: Result<Vec<u8>, String>)
    ensures
        r matches Ok(s) ==> forall|k: Vec<u8>|
            #[trigger] call_ensures(keypair_public_key, (keypair,), k) ==> spec_protobuf_key_verifies(
                k@,
                message@,
                s@,
            ),
{
    keypair.sign(message).map_err(|e| e.to_string())
}

/// Trusted: `Keypair::public` and `PublicKey::encode_protobuf`: the
/// keypair's public key in the libp2p protobuf encoding, which
/// `PublicKey::try_decode_protobuf` reads back. The bytes depend on the
/// keypair.
#[verifier::external_body]
fn keypair_public_key(keypair: &Keypair) -> (k: Vec<u8>)
    ensures
        spec_protobuf_key_decodes(k@),
{
    keypair.public().encode_protobuf()
}

/// `k` is a public key, in the libp2p protobuf encoding, that reading the
/// public key of `keypair` can give.
pub closed spec fn public_key_read(keypair: &Keypair, k: Seq<u8>) -> bool {
    exists|v: Vec<u8>| v@ == k && #[trigger] call_ensures(keypair_public_key, (keypair,), v)
}

/// `r` is an outcome that signing `message` with `keypair` can have.
pub closed spec fn signing_returned(
    keypair: &Keypair,
    message: &[u8],
    r: Result<Vec<u8>, String>,
) -> bool {
    call_ensures(keypair_sign, (keypair, message), r)
}

/// Trusted: `Keypair::clone`. `Clone` is derived for `Keypair` and for the
/// key types inside it, down to the key bytes, so the copy equals the
/// original.
#[verifier::external_body]
fn keypair_clone(keypair: &Keypair) -> (c: Keypair)
    ensures
        c == *keypair,
{
    keypair.clone()
}

/// Why a produced signature could not be used.
pub open spec fn spec_bad_signature_length_message() -> Seq<char> {
    "Signature length is not 64 bytes"@
}

/// Turns a signature into the fixed-size array the protocol carries: `Ok`
/// with the same bytes when there are exactly 64 of them, otherwise the error
/// "Signature length is not 64 bytes".
pub fn signature_to_array(signature: &[u8]) -> (r: Result<[u8; 64], String>)
    ensures
        signature@.len() == 64 <==> r is Ok,
        r matches Ok(a) ==> a@ == signature@,
        r matches Err(e) ==> e@ == spec_bad_signature_length_message(),
{
    if signature.len() != 64 {
        let msg = "Signature length is not 64 bytes";
        proof {
            reveal_strlit("Signature length is not 64 bytes");
        }
        return Err(msg.to_owned());
    }
    let mut array = [0u8; 64];
    let mut i: usize = 0;
    while i < 64
        invariant
            signature@.len() == 64,
            i <= 64,
            forall|j: int| 0 <= j < i ==> array@[j] == signature@[j],
        decreases 64 - i,
    {
        array[i] = signature[i];
        i = i + 1;
    }
    assert(array@ =~= signature@);
    Ok(array)
}

/// Signer that uses the transport keypair, for nodes that do not bring an
/// application signer of their own.
pub struct TransportKeypairSigner {
    keypair: Keypair,
    /// The keypair's public key, libp2p protobuf encoding.
    public_key: Vec<u8>,
}

impl TransportKeypairSigner {
    /// The public key is the keypair's.
    #[verifier::type_invariant]
    spec fn keys_agree(self) -> bool {
        public_key_read(&self.keypair, self.public_key@)
    }

    /// The keypair this signer signs with.
    pub closed spec fn spec_keypair(self) -> Keypair {
        self.keypair
    }

    /// The public key its signatures are checked against (libp2p protobuf
    /// encoding).
    pub closed spec fn spec_public_key(self) -> Seq<u8> {
        self.public_key@
    }

    /// Creates a new signer over the given transport keypair.
    pub fn new(keypair: Keypair) -> (s: Self)
        ensures
            s.spec_keypair() == keypair,
            public_key_read(&keypair, s.spec_public_key()),
    {
        let public_key = keypair_public_key(&keypair);
        assert(call_ensures(keypair_public_key, (&keypair,), public_key));
        Self { keypair, public_key }
    }

    /// The public key its signatures are checked against.
    pub fn public_key(&self) -> (k: &[u8])
        ensures
            k@ == self.spec_public_key(),
    {
        self.public_key.as_slice()
    }

    /// A copy of this signer, over a copy of its keypair.
    pub fn duplicate(&self) -> (d: Self)
        ensures
            d.spec_keypair() == self.spec_keypair(),
            d.spec_public_key() == self.spec_public_key(),
    {
        proof {
            use_type_invariant(self);
        }
        Self { keypair: keypair_clone(&self.keypair), public_key: self.public_key.clone() }
    }

    /// Law: what this signer signs verifies under its public key, which
    /// decodes.
    pub proof fn lemma_signatures_verify(self, message: Seq<u8>, signature: Seq<u8>)
        requires
            self.signs(message, signature),
        ensures
            spec_protobuf_key_decodes(self.spec_public_key()),
            spec_protobuf_key_verifies(self.spec_public_key(), message, signature),
    {
    }
}

impl ApplicationSigner for TransportKeypairSigner {
    /// A signature of this signer verifies under its public key.
    closed spec fn signs(&self, message: Seq<u8>, signature: Seq<u8>) -> bool {
        spec_protobuf_key_decodes(self.public_key@) && spec_protobuf_key_verifies(
            self.public_key@,
            message,
            signature,
        )
    }

    /// Signs `message` with the transport keypair: the keypair's signature
    /// when it is 64 bytes long; the keypair's error when it cannot sign; the
    /// error "Signature length is not 64 bytes" otherwise.
    fn sign(&self, message: &[u8]) -> (r: Result<[u8; 64], String>)
        ensures
            exists|raw: Result<Vec<u8>, String>|
                #[trigger] signing_returned(&self.spec_keypair(), message, raw) && match raw {
                    Err(e) => r == Err::<[u8; 64], String>(e),
                    Ok(s) => {
                        &&& s@.len() == 64 <==> r is Ok
                        &&& r matches Ok(a) ==> a@ == s@
                        &&& r matches Err(e) ==> e@ == spec_bad_signature_length_message()
                    },
                },
    {
        proof {
            use_type_invariant(self);
        }
        let raw = keypair_sign(&self.keypair, message);
        assert(signing_returned(&self.spec_keypair(), message, raw));
        match raw {
            Ok(signature) => {
                let r = signature_to_array(signature.as_slice());
                proof {
                    if r is Ok {
                        let v = choose|v: Vec<u8>|
                            v@ == self.public_key@ && #[trigger] call_ensures(
                                keypair_public_key,
                                (&self.keypair,),
                                v,
                            );
                        assert(spec_protobuf_key_verifies(v@, message@, signature@));
                        assert(spec_protobuf_key_decodes(v@));
                    }
                }
                r
            },
            Err(e) => Err(e),
        }
    }
}

impl<T: ApplicationSigner> ApplicationSigner for Arc<T> {
    /// A signature of the shared signer.
    open spec fn signs(&self, message: Seq<u8>, signature: Seq<u8>) -> bool {
        (**self).signs(message, signature)
    }

    /// Signs with the shared signer.
    fn sign(&self, message: &[u8]) -> (r: Result<[u8; 64], String>) {
        let inner: &T = &**self;
        inner.sign(message)
    }
}

} // verus!
