//! Topic hashing for gossipsub: the topic's name is replaced by the hex of
//! its SHA-256 digest.

use crate::p2p::text::spec_hex_lower;
use bitcoin::hashes::sha256;
use vstd::prelude::*;
use vstd::string::StringSliceAdditionalSpecFns;

verus! {

/// The SHA-256 digest of `data`, as `bitcoin::hashes::sha256::Hash::hash`
/// computes it.
pub uninterp spec fn spec_sha256(data: Seq<u8>) -> Seq<u8>;

/// Trusted: `sha256::Hash::hash(data).to_string()`. The hash type displays
/// its 32 digest bytes in their natural order as lower-case hex (it is not
/// one of the types displayed backwards), which the contract states.
#[verifier::external_body]
fn sha256_hex(data: &[u8]) -> (s: String)
    ensures
        s@ == spec_hex_lower(spec_sha256(data@)),
{
    <sha256::Hash as bitcoin::hashes::Hash>::hash(data).to_string()
}

/// Hashes gossipsub topic names with SHA-256.
#[derive(Debug, Clone, Copy)]
pub struct Sha256Hasher;

impl Sha256Hasher {
    /// The raw topic hash of `topic_string`: the lower-case hex of the
    /// SHA-256 digest of its UTF-8 bytes.
    pub fn hash(topic_string: &str) -> (s: String)
        ensures
            s@ == spec_hex_lower(spec_sha256(topic_string.spec_bytes())),
    {
        sha256_hex(topic_string.as_bytes())
    }
}

} // verus!
