//! Events the P2P node emits to its user. Events that carry a reply
//! channel are built outside the library, around these.

use crate::p2p::swarm::node::InboundVerdict;
use vstd::prelude::*;

verus! {

/// Authenticated gossipsub message delivered to the peer.
#[derive(Debug, Clone, PartialEq, Eq)]
pub struct ReceivedGossipMessage {
    /// Authenticated sender key from the signed gossipsub message.
    pub sender: Vec<u8>,
    /// Message bytes carried by the gossipsub message.
    pub data: Vec<u8>,
}

/// Events emitted from the gossipsub protocol.
#[derive(Debug, Clone, PartialEq, Eq)]
pub enum GossipEvent {
    /// Authenticated gossipsub message delivered to the peer.
    ReceivedMessage(ReceivedGossipMessage),
}

impl GossipEvent {
    /// The event an accepted gossipsub message gives; none for any other
    /// verdict.
    pub fn from_verdict(verdict: InboundVerdict) -> (e: Option<GossipEvent>)
        ensures
            verdict matches InboundVerdict::Accepted { sender, message } ==> e == Some(
                GossipEvent::ReceivedMessage(ReceivedGossipMessage { sender, data: message }),
            ),
            !(verdict is Accepted) ==> e is None,
    {
        match verdict {
            InboundVerdict::Accepted { sender, message } => Some(
                GossipEvent::ReceivedMessage(ReceivedGossipMessage { sender, data: message }),
            ),
            _ => None,
        }
    }
}

} // verus!
