//! Serialized data storage for the P2P protocol: the storage errors, the
//! keys under which entries are stored, the deposit states of a peer and the
//! storage helpers over `sled`.

pub mod keys;
pub mod operator;
pub mod pk_serde;
pub mod sled;
pub mod states;

use crate::p2p::text::string_push_str;
use vstd::prelude::*;

verus! {

/// Errors of the storage layer, with the underlying error's text.
#[derive(Debug, Clone, PartialEq, Eq)]
pub enum RepositoryError {
    /// The key-value store failed.
    Storage(String),
    /// Stored bytes did not decode, or a value did not encode.
    InvalidData(String),
}

/// The display text of a storage error.
pub open spec fn spec_repository_error_text(e: RepositoryError) -> Seq<char> {
    match e {
        RepositoryError::Storage(m) => "Storage error: "@ + m@,
        RepositoryError::InvalidData(m) => "Invalid data error: "@ + m@,
    }
}

impl RepositoryError {
    /// The error's display text: `Storage error: ` or `Invalid data error: `
    /// followed by the underlying error's text.
    pub fn to_display_string(&self) -> (s: String)
        ensures
            s@ == spec_repository_error_text(*self),
    {
        let mut s = String::new();
        match self {
            RepositoryError::Storage(m) => {
                string_push_str(&mut s, "Storage error: ");
                string_push_str(&mut s, m.as_str());
            },
            RepositoryError::InvalidData(m) => {
                string_push_str(&mut s, "Invalid data error: ");
                string_push_str(&mut s, m.as_str());
            },
        }
        s
    }
}

} // verus!
