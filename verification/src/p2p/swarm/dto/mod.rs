//! Message records exchanged between nodes: protocol identifiers, the
//! signed wrapper and the records it wraps.

pub mod dht_record;
pub mod gossipsub;
pub mod message;
pub mod signed;

use crate::p2p::clock::{clock_reading, unix_timestamp};
use vstd::prelude::*;

verus! {

/// Protocol identifiers for different message types.
#[derive(Debug, Clone, Copy, PartialEq, Eq, Hash)]
pub enum ProtocolId {
    /// Setup protocol for peer handshake.
    Setup,
    /// Gossipsub protocol for pub/sub messaging.
    Gossip,
    /// Request-response protocol for direct communication.
    RequestResponse,
}

impl ProtocolId {
    /// The identifier's number: 1, 2 and 3.
    pub open spec fn spec_to_u8(self) -> u8 {
        match self {
            ProtocolId::Setup => 1,
            ProtocolId::Gossip => 2,
            ProtocolId::RequestResponse => 3,
        }
    }

    /// The identifier's number.
    pub fn to_u8(self) -> (n: u8)
        ensures
            n == self.spec_to_u8(),
    {
        match self {
            ProtocolId::Setup => 1,
            ProtocolId::Gossip => 2,
            ProtocolId::RequestResponse => 3,
        }
    }

    /// The identifier a number names; an error for any number but 1, 2 and 3.
    pub fn try_from_u8(value: u8) -> (r: Result<ProtocolId, &'static str>)
        ensures
            r is Ok <==> (1 <= value <= 3),
            r matches Ok(p) ==> p.spec_to_u8() == value,
            r matches Err(e) ==> e@ == "Invalid protocol ID"@,
    {
        if value == 1 {
            Ok(ProtocolId::Setup)
        } else if value == 2 {
            Ok(ProtocolId::Gossip)
        } else if value == 3 {
            Ok(ProtocolId::RequestResponse)
        } else {
            proof {
                reveal_strlit("Invalid protocol ID");
            }
            Err("Invalid protocol ID")
        }
    }
}

/// Law: an identifier reads back from its number, and no two identifiers
/// share one.
pub proof fn lemma_protocol_id_roundtrip(p: ProtocolId, q: ProtocolId)
    ensures
        1 <= p.spec_to_u8() <= 3,
        p.spec_to_u8() == q.spec_to_u8() ==> p == q,
{
}

/// Seconds since the Unix epoch now; 0 when the clock reads a time before
/// the epoch.
pub fn get_timestamp() -> (r: u64)
    ensures
        clock_reading(r),
{
    unix_timestamp()
}

} // verus!
