//! Swarm errors.
//!
//! Errors raised by outside code (codecs, signers, streams) are carried as
//! their display text.

use vstd::prelude::*;

verus! {

/// Errors that can happen during a setup handshake.
#[derive(Debug, Clone, PartialEq, Eq)]
pub enum SetupError {
    /// Signature verification failed: the handshake message's signature does
    /// not match its content and key, and the connection should be dropped.
    SignatureVerificationFailed,
    /// Failed to deserialize something.
    DeserializationFailed(String),
    /// In the received message the application public key is invalid.
    AppPublicKeyInvalid(String),
    /// Error while sending to the remote peer.
    OutboundError(String),
    /// Error while receiving from the remote peer.
    InboundError(String),
    /// The transport ids in the message do not match the connection.
    TransportIdMismatch,
    /// The message is older than the allowed envelope age.
    StaleMessage,
    /// The message is dated further in the future than the allowed clock
    /// skew.
    FutureMessage,
}

/// Errors that can occur during the setup upgrade process.
#[derive(Debug, Clone, PartialEq, Eq)]
pub enum SetupUpgradeError {
    /// Invalid signature size: 64 bytes were expected.
    InvalidSignatureSize {
        /// The actual size of the signature that was received.
        actual: usize,
    },
    /// Failed to create a signed message.
    SignedMessageCreation(String),
    /// JSON encoding/decoding error during message serialization.
    JsonCodec(String),
    /// Stream was closed unexpectedly.
    UnexpectedStreamClose,
}

/// Generic errors that can occur during message operations.
#[derive(Debug, Clone, PartialEq, Eq)]
pub enum MessageError {
    /// Failed to deserialize a message.
    DeserializationFailed(String),
    /// JSON encoding/decoding error during message serialization.
    JsonCodec(String),
    /// Signature verification failed.
    SignatureVerificationFailed,
    /// Failed to create a signed message.
    SignedMessageCreation(String),
}

} // verus!
