//! Swarm logic for P2P: the decisions of the networking event loop.

pub mod codec;
pub mod dht_record;
pub mod dial_manager;
pub mod dto;
pub mod errors;
pub mod filtering;
pub mod handle;
pub mod hasher;
pub mod kad_republish;
pub mod message;
pub mod node;
pub mod penalty;
pub mod setup;
pub mod signed_data;
