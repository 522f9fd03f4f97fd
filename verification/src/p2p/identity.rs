//! Calls into `libp2p_identity` for key decoding, signature checks and peer
//! ids. Public keys travel through this crate as their libp2p protobuf
//! encoding, Ed25519 operator keys as their 32 raw bytes, and peer ids as
//! their multihash bytes.

use libp2p_identity::{ed25519, PeerId, PublicKey};
use vstd::prelude::*;

verus! {

/// Whether `PublicKey::try_decode_protobuf` accepts `encoded`.
pub uninterp spec fn spec_protobuf_key_decodes(encoded: Seq<u8>) -> bool;

/// What `PublicKey::verify(msg, sig)` answers for the key that
/// `PublicKey::try_decode_protobuf(encoded)` yields.
pub uninterp spec fn spec_protobuf_key_verifies(encoded: Seq<u8>, msg: Seq<u8>, sig: Seq<u8>) -> bool;

/// Whether `PeerId::from_bytes` accepts `data`.
pub uninterp spec fn spec_peer_id_parses(data: Seq<u8>) -> bool;

/// Whether `ed25519::PublicKey::try_from_bytes` accepts `key`.
pub uninterp spec fn spec_ed25519_key_valid(key: Seq<u8>) -> bool;

/// What `ed25519::PublicKey::verify(msg, sig)` answers for the key that
/// `ed25519::PublicKey::try_from_bytes(key)` yields.
pub uninterp spec fn spec_ed25519_verifies(key: Seq<u8>, msg: Seq<u8>, sig: Seq<u8>) -> bool;

/// The bytes (`PeerId::to_bytes`) of the peer id derived from the Ed25519 key
/// `key` (`PeerId::from(PublicKey::from(ed25519::PublicKey::try_from_bytes(key)))`).
pub uninterp spec fn spec_ed25519_peer_id(key: Seq<u8>) -> Seq<u8>;

/// Trusted: `PublicKey::try_decode_protobuf(encoded)`. The result is `Ok`
/// exactly when the decoding succeeds; the error text is the decoder's
/// message and is not described.
#[verifier::external_body]
pub(crate) fn decode_protobuf_key(encoded: &[u8]) -> (r: Result<(), String>)
    ensures
        r is Ok <==> spec_protobuf_key_decodes(encoded@),
{
    PublicKey::try_decode_protobuf(encoded).map(|_| ()).map_err(|e| e.to_string())
}

/// Trusted: decodes `encoded` with `PublicKey::try_decode_protobuf` and, when
/// that succeeds, answers `PublicKey::verify(msg, sig)`. `Err` carries the
/// decoder's message, which is not described.
#[verifier::external_body]
pub(crate) fn verify_with_protobuf_key(encoded: &[u8], msg: &[u8], sig: &[u8]) -> (r: Result<
    bool,
    String,
>)
    ensures
        r is Ok <==> spec_protobuf_key_decodes(encoded@),
        r matches Ok(b) ==> b == spec_protobuf_key_verifies(encoded@, msg@, sig@),
{
    match PublicKey::try_decode_protobuf(encoded) {
        Ok(key) => Ok(key.verify(msg, sig)),
        Err(e) => Err(e.to_string()),
    }
}

/// Trusted: `PeerId::from_bytes(data)`; `Ok` exactly when it parses. The
/// error text is the parser's message and is not described.
#[verifier::external_body]
pub(crate) fn check_peer_id(data: &[u8]) -> (r: Result<(), String>)
    ensures
        r is Ok <==> spec_peer_id_parses(data@),
{
    PeerId::from_bytes(data).map(|_| ()).map_err(|e| e.to_string())
}

/// Trusted: `ed25519::PublicKey::try_from_bytes(key)` succeeds. It first
/// turns the key into a 32-byte array, so a key of any other length fails.
#[verifier::external_body]
pub(crate) fn ed25519_key_is_valid(key: &[u8]) -> (r: bool)
    ensures
        r == spec_ed25519_key_valid(key@),
        key@.len() != 32 ==> !r,
{
    ed25519::PublicKey::try_from_bytes(key).is_ok()
}

/// Trusted: parses `key` with `ed25519::PublicKey::try_from_bytes` and, when
/// that succeeds, answers `verify(msg, sig)`; `false` when it does not parse.
/// The key must be 32 bytes long to parse, and `verify` first turns the
/// signature into a 64-byte array, so other lengths give `false`.
#[verifier::external_body]
pub(crate) fn ed25519_verify(key: &[u8], msg: &[u8], sig: &[u8]) -> (r: bool)
    ensures
        r == (spec_ed25519_key_valid(key@) && spec_ed25519_verifies(key@, msg@, sig@)),
        key@.len() != 32 ==> !r,
        sig@.len() != 64 ==> !r,
{
    match ed25519::PublicKey::try_from_bytes(key) {
        Ok(k) => k.verify(msg, sig),
        Err(_) => false,
    }
}

/// Trusted: the peer id of an Ed25519 key, as its bytes. The key must parse:
/// `try_from_bytes` would otherwise fail and the conversion panic.
#[verifier::external_body]
pub(crate) fn ed25519_peer_id(key: &[u8]) -> (r: Vec<u8>)
    requires
        spec_ed25519_key_valid(key@),
    ensures
        r@ == spec_ed25519_peer_id(key@),
{
    let pk = ed25519::PublicKey::try_from_bytes(key).expect("checked by the caller");
    let pk: PublicKey = pk.into();
    PeerId::from(pk).to_bytes()
}

} // verus!
