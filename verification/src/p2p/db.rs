//! The node's storage records: errors and signed entries. The keys they are
//! stored under, and the deposit state derived from what is stored, are in
//! [`crate::db::keys`] and [`crate::db::states`].

use crate::p2p::text::string_push_str;
use vstd::prelude::*;

verus! {

/// Errors of the node's storage, with the underlying error's text.
#[derive(Debug, Clone, PartialEq, Eq)]
pub enum RepositoryError {
    /// The key-value store failed.
    KeyValueStorage(String),
    /// Stored bytes did not decode, or a value did not encode.
    InvalidData(String),
}

/// The display text of a storage error: the variant's name for a store
/// failure, `Invalid data: [..]` around the underlying text otherwise.
pub open spec fn spec_node_repository_error_text(e: RepositoryError) -> Seq<char> {
    match e {
        RepositoryError::KeyValueStorage(_) => "KeyValueStorage"@,
        RepositoryError::InvalidData(m) => "Invalid data: ["@ + m@ + "]"@,
    }
}

impl RepositoryError {
    /// The error's display text.
    pub fn to_display_string(&self) -> (s: String)
        ensures
            s@ == spec_node_repository_error_text(*self),
    {
        let mut s = String::new();
        match self {
            RepositoryError::KeyValueStorage(_) => {
                string_push_str(&mut s, "KeyValueStorage");
            },
            RepositoryError::InvalidData(m) => {
                string_push_str(&mut s, "Invalid data: [");
                string_push_str(&mut s, m.as_str());
                string_push_str(&mut s, "]");
            },
        }
        s
    }
}

/// A stored entry with the signature over it.
#[derive(Debug, Clone, PartialEq, Eq)]
pub struct EntryWithSig<T> {
    /// The entry.
    pub entry: T,
    /// The signature over the entry.
    pub signature: Vec<u8>,
}

} // verus!
