//! Commands for the P2P node from the operator's side. Commands that carry
//! a reply channel are built outside the library, around these.

use vstd::prelude::*;

verus! {

/// Moderation action that lifts a penalty from a peer.
#[derive(Debug, Clone, Copy, PartialEq, Eq)]
pub enum UnpenaltyType {
    /// Remove an active ban.
    Unban,
    /// Remove an active mute on the gossipsub protocol.
    UnmuteGossipsub,
    /// Remove an active mute on the request-response protocol.
    UnmuteRequestResponse,
    /// Remove an active mute from both gossipsub and request-response.
    UnmuteBoth,
}

impl UnpenaltyType {
    /// Whether the action lifts a gossipsub mute.
    pub fn unmutes_gossipsub(self) -> (r: bool)
        ensures
            r <==> (self is UnmuteGossipsub || self is UnmuteBoth),
    {
        match self {
            UnpenaltyType::UnmuteGossipsub | UnpenaltyType::UnmuteBoth => true,
            _ => false,
        }
    }

    /// Whether the action lifts a request-response mute.
    pub fn unmutes_request_response(self) -> (r: bool)
        ensures
            r <==> (self is UnmuteRequestResponse || self is UnmuteBoth),
    {
        match self {
            UnpenaltyType::UnmuteRequestResponse | UnpenaltyType::UnmuteBoth => true,
            _ => false,
        }
    }
}

/// Command to publish a message through gossipsub.
#[derive(Debug, Clone, PartialEq, Eq)]
pub struct GossipCommand {
    /// Message payload in raw bytes.
    ///
    /// The user is responsible for properly serializing/deserializing the data.
    pub data: Vec<u8>,
}

/// Command to send a request to a specific peer.
#[derive(Debug, Clone, PartialEq, Eq)]
pub struct RequestResponseCommand {
    /// Application public key of the target peer (libp2p protobuf encoding).
    pub target_app_public_key: Vec<u8>,
    /// Message payload in raw bytes.
    ///
    /// The user is responsible for properly serializing/deserializing the data.
    pub data: Vec<u8>,
}

} // verus!
