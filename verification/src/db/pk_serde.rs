//! (De)serialization of secp256k1 public keys as their compressed bytes.
//!
//! The serde glue that hands these bytes to a serializer, and takes them
//! from a deserializer, lives with the serde derives outside the library.

use libp2p_identity::secp256k1::PublicKey;
use vstd::prelude::*;

verus! {

/// The compressed form of the secp256k1 public key that `bytes` encode
/// (compressed or uncompressed SEC1), or `None` when they encode none.
pub uninterp spec fn spec_secp256k1_compressed(bytes: Seq<u8>) -> Option<Seq<u8>>;

/// Trusted: `secp256k1::PublicKey::try_from_bytes`, then `to_bytes`. The
/// result is named by [`spec_secp256k1_compressed`]; the compressed form is
/// 33 bytes, and decoding it gives back the same key, as `try_from_bytes`
/// reads the format that `to_bytes` writes.
#[verifier::external_body]
fn secp256k1_compressed(bytes: &[u8]) -> (r: Result<Vec<u8>, String>)
    ensures
        spec_secp256k1_compressed(bytes@) == (match r {
            Ok(c) => Some(c@),
            Err(_) => None::<Seq<u8>>,
        }),
        r matches Ok(c) ==> c@.len() == 33 && spec_secp256k1_compressed(c@) == Some(c@),
{
    match PublicKey::try_from_bytes(bytes) {
        Ok(k) => Ok(k.to_bytes().to_vec()),
        Err(e) => Err(e.to_string()),
    }
}

/// A secp256k1 public key, held as its compressed bytes.
#[derive(Debug, Clone)]
pub struct Secp256k1PublicKey {
    compressed: Vec<u8>,
}

impl Secp256k1PublicKey {
    /// The key's compressed bytes.
    pub closed spec fn spec_bytes(self) -> Seq<u8> {
        self.compressed@
    }

    /// The bytes are a key's compressed form.
    pub closed spec fn wf(self) -> bool {
        spec_secp256k1_compressed(self.compressed@) == Some(self.compressed@)
    }
}

/// The bytes a key is serialized as: its compressed form.
pub fn serialize(key: &Secp256k1PublicKey) -> (b: Vec<u8>)
    requires
        key.wf(),
    ensures
        b@ == key.spec_bytes(),
        spec_secp256k1_compressed(b@) == Some(b@),
{
    key.compressed.clone()
}

/// The key that `key_bytes` encode, compressed or not; an error, with the
/// decoder's text, when they encode none.
pub fn deserialize(key_bytes: &[u8]) -> (r: Result<Secp256k1PublicKey, String>)
    ensures
        r is Ok <==> spec_secp256k1_compressed(key_bytes@) is Some,
        r matches Ok(k) ==> k.wf() && Some(k.spec_bytes()) == spec_secp256k1_compressed(
            key_bytes@,
        ),
{
    match secp256k1_compressed(key_bytes) {
        Ok(c) => Ok(Secp256k1PublicKey { compressed: c }),
        Err(e) => Err(e),
    }
}

/// Law: a key comes back from its serialized form unchanged.
pub proof fn lemma_pk_serde_roundtrip(key: Secp256k1PublicKey)
    requires
        key.wf(),
    ensures
        spec_secp256k1_compressed(key.spec_bytes()) == Some(key.spec_bytes()),
{
}

} // verus!
