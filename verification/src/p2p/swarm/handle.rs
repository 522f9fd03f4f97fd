//! Handles to the P2P event loop: what the library decides about them.

use crate::p2p::text::{spec_decimal, string_push_str, to_decimal};
use vstd::prelude::*;

verus! {

/// The receiver lagged too far behind; it will next receive the oldest
/// message the channel still holds. Carries the number of skipped messages.
#[derive(Debug, Clone, PartialEq, Eq)]
pub struct ErrDroppedMsgs(pub u64);

impl ErrDroppedMsgs {
    /// The error's message: "GossipHandle dropped {n} messages".
    pub fn to_display_string(&self) -> (s: String)
        ensures
            s@ == "GossipHandle dropped "@ + spec_decimal(self.0 as nat) + " messages"@,
    {
        let mut s = String::new();
        let prefix = "GossipHandle dropped ";
        let suffix = " messages";
        string_push_str(&mut s, prefix);
        let n = to_decimal(self.0);
        string_push_str(&mut s, n.as_str());
        string_push_str(&mut s, suffix);
        assert(s@ =~= "GossipHandle dropped "@ + spec_decimal(self.0 as nat) + " messages"@);
        s
    }
}

} // verus!
