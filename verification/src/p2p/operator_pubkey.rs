//! Operators exchange authenticated messages signed with their P2P
//! [`P2POperatorPubKey`].

use crate::p2p::identity::{
    ed25519_key_is_valid, ed25519_peer_id, ed25519_verify, spec_ed25519_key_valid,
    spec_ed25519_peer_id, spec_ed25519_verifies,
};
use crate::p2p::text::{spec_hex_lower, to_hex_lower};
use vstd::prelude::*;

verus! {

/// P2P operator public key: an identifier of a protocol entity, the 32 bytes
/// of an Ed25519 public key.
#[derive(Debug, Clone, PartialEq, Eq, Hash, PartialOrd, Ord)]
pub struct P2POperatorPubKey(pub Vec<u8>);

impl View for P2POperatorPubKey {
    type V = Seq<u8>;

    open spec fn view(&self) -> Seq<u8> {
        self.0@
    }
}

impl From<Vec<u8>> for P2POperatorPubKey {
    fn from(value: Vec<u8>) -> (r: Self) {
        Self(value)
    }
}

impl vstd::std_specs::convert::FromSpecImpl<Vec<u8>> for P2POperatorPubKey {
    open spec fn obeys_from_spec() -> bool {
        true
    }

    open spec fn from_spec(v: Vec<u8>) -> Self {
        P2POperatorPubKey(v)
    }
}

impl P2POperatorPubKey {
    /// The key bytes.
    pub fn as_bytes(&self) -> (b: &[u8])
        ensures
            b@ == self@,
    {
        self.0.as_slice()
    }

    /// The key bytes, giving up the key.
    pub fn into_bytes(self) -> (b: Vec<u8>)
        ensures
            b@ == self@,
    {
        self.0
    }

    /// Lower-case hex of the key bytes, the key's display form.
    pub fn to_hex(&self) -> (s: String)
        ensures
            s@ == spec_hex_lower(self@),
    {
        to_hex_lower(self.0.as_slice())
    }

    /// Verifies `signature` over `message` with this key; `false` when the
    /// bytes are not an Ed25519 public key.
    pub fn verify(&self, message: &[u8], signature: &[u8]) -> (r: bool)
        ensures
            r == (spec_ed25519_key_valid(self@) && spec_ed25519_verifies(
                self@,
                message@,
                signature@,
            )),
            self@.len() != 32 ==> !r,
            signature@.len() != 64 ==> !r,
    {
        ed25519_verify(self.0.as_slice(), message, signature)
    }

    /// Whether the bytes are an Ed25519 public key; never for other than 32
    /// bytes.
    pub fn is_valid(&self) -> (r: bool)
        ensures
            r == spec_ed25519_key_valid(self@),
            self@.len() != 32 ==> !r,
    {
        ed25519_key_is_valid(self.0.as_slice())
    }

    /// The peer id (its bytes) of this key. The bytes must be an Ed25519
    /// public key; [`P2POperatorPubKey::try_peer_id`] checks that first.
    pub fn peer_id(&self) -> (r: Vec<u8>)
        requires
            spec_ed25519_key_valid(self@),
        ensures
            r@ == spec_ed25519_peer_id(self@),
    {
        ed25519_peer_id(self.0.as_slice())
    }

    /// The peer id (its bytes) of this key, or `None` when the bytes are not
    /// an Ed25519 public key.
    pub fn try_peer_id(&self) -> (r: Option<Vec<u8>>)
        ensures
            r is Some <==> spec_ed25519_key_valid(self@),
            self@.len() != 32 ==> r is None,
            r matches Some(p) ==> p@ == spec_ed25519_peer_id(self@),
    {
        if self.is_valid() {
            Some(self.peer_id())
        } else {
            None
        }
    }
}

} // verus!
