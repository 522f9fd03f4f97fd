//! Peer-to-peer protocol: messages, operator keys, signer, commands and
//! events, storage records and swarm logic.

pub mod clock;
pub mod commands;
pub mod db;
pub mod events;
pub mod identity;
pub mod keyed;
pub mod message;
pub mod operator_pubkey;
pub mod signer;
pub mod swarm;
pub mod text;
pub mod wire;
