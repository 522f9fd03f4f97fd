//! Operator public key as stored by the database layer.

use crate::p2p::text::{spec_hex_lower, to_hex_lower};
use vstd::prelude::*;

verus! {

/// An operator's public key bytes.
#[derive(Debug, Clone, PartialEq, Eq, Hash, PartialOrd, Ord)]
pub struct OperatorPubkey(pub Vec<u8>);

impl View for OperatorPubkey {
    type V = Seq<u8>;

    open spec fn view(&self) -> Seq<u8> {
        self.0@
    }
}

impl From<Vec<u8>> for OperatorPubkey {
    fn from(value: Vec<u8>) -> (r: Self) {
        Self(value)
    }
}

impl vstd::std_specs::convert::FromSpecImpl<Vec<u8>> for OperatorPubkey {
    open spec fn obeys_from_spec() -> bool {
        true
    }

    open spec fn from_spec(v: Vec<u8>) -> Self {
        OperatorPubkey(v)
    }
}

impl OperatorPubkey {
    /// The key's display form: each byte as two lower-case hex digits.
    pub fn to_hex(&self) -> (s: String)
        ensures
            s@ == spec_hex_lower(self@),
    {
        to_hex_lower(self.0.as_slice())
    }
}

} // verus!
