//! The setup phase of P2P connections: exchange of application public keys.

pub mod behavior;
pub mod events;
pub mod flexbuffers_codec;
pub mod handler;
pub mod upgrade;
