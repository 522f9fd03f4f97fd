//! Protocol upgrades of the setup phase: the inbound side that receives the
//! peer's signed setup message and the outbound side that sends ours.

use crate::p2p::signer::ApplicationSigner;
use crate::p2p::swarm::errors::SetupUpgradeError;
use crate::p2p::swarm::message::setup::SetupMessage;
use crate::p2p::swarm::message::SignedMessage;
use vstd::prelude::*;

verus! {

/// The protocol name of the setup handshake.
pub open spec fn spec_setup_protocol_name() -> Seq<char> {
    "/handshake/1.0.0"@
}

/// Inbound upgrade for incoming setup requests.
#[derive(Debug, Clone)]
pub struct InboundSetupUpgrade;

impl InboundSetupUpgrade {
    /// Creates a new inbound setup upgrade.
    pub fn new() -> Self {
        InboundSetupUpgrade
    }

    /// The protocol this upgrade answers to.
    pub fn protocol_info(&self) -> (p: &'static str)
        ensures
            p@ == spec_setup_protocol_name(),
    {
        let p = "/handshake/1.0.0";
        proof {
            reveal_strlit("/handshake/1.0.0");
        }
        p
    }

    /// The outcome of the inbound upgrade from what the stream gave: the
    /// first frame decoded (`Some(Ok(..))`), failed to decode (`Some(Err(..))`,
    /// with the decoder's text) or never came (`None`).
    pub fn upgrade_result(next: Option<Result<SignedMessage, String>>) -> (r: Result<
        SignedMessage,
        SetupUpgradeError,
    >)
        ensures
            next matches Some(Ok(m)) ==> r == Ok::<SignedMessage, SetupUpgradeError>(m),
            next matches Some(Err(e)) ==> r == Err::<SignedMessage, SetupUpgradeError>(
                SetupUpgradeError::JsonCodec(e),
            ),
            next is None ==> r == Err::<SignedMessage, SetupUpgradeError>(
                SetupUpgradeError::UnexpectedStreamClose,
            ),
    {
        match next {
            Some(Ok(m)) => Ok(m),
            Some(Err(e)) => Err(SetupUpgradeError::JsonCodec(e)),
            None => Err(SetupUpgradeError::UnexpectedStreamClose),
        }
    }
}

/// Outbound upgrade that sends our setup message to the remote peer.
#[derive(Debug, Clone)]
pub struct OutboundSetupUpgrade<S> {
    /// Our application public key (libp2p protobuf encoding).
    pub app_public_key: Vec<u8>,
    /// Our transport id.
    pub local_transport_id: Vec<u8>,
    /// The remote peer's transport id.
    pub remote_transport_id: Vec<u8>,
    /// Signer for our setup message.
    pub signer: S,
}

impl<S> OutboundSetupUpgrade<S> {
    /// Creates a new outbound setup upgrade.
    pub fn new(
        app_public_key: Vec<u8>,
        local_transport_id: Vec<u8>,
        remote_transport_id: Vec<u8>,
        signer: S,
    ) -> (u: Self)
        ensures
            u.app_public_key == app_public_key,
            u.local_transport_id == local_transport_id,
            u.remote_transport_id == remote_transport_id,
            u.signer == signer,
    {
        OutboundSetupUpgrade { app_public_key, local_transport_id, remote_transport_id, signer }
    }

    /// The protocol this upgrade speaks.
    pub fn protocol_info(&self) -> (p: &'static str)
        ensures
            p@ == spec_setup_protocol_name(),
    {
        let p = "/handshake/1.0.0";
        proof {
            reveal_strlit("/handshake/1.0.0");
        }
        p
    }

    /// The setup message this upgrade sends, stamped with the current time.
    pub fn setup_message(&self) -> (m: SetupMessage)
        ensures
            m.app_public_key@ == self.app_public_key@,
            m.local_transport_id@ == self.local_transport_id@,
            m.remote_transport_id@ == self.remote_transport_id@,
    {
        SetupMessage::new(
            self.app_public_key.clone(),
            self.local_transport_id.clone(),
            self.remote_transport_id.clone(),
        )
    }
}

impl<S: ApplicationSigner> OutboundSetupUpgrade<S> {
    /// Signs `serialized`, the serialized setup message, for sending; a
    /// failure of the signer becomes `SignedMessageCreation`.
    pub fn sign_setup(&self, serialized: Vec<u8>) -> (r: Result<SignedMessage, SetupUpgradeError>)
        ensures
            r matches Ok(m) ==> m.message@ == serialized@ && self.signer.signs(
                serialized@,
                m.signature@,
            ),
            r matches Err(e) ==> e is SignedMessageCreation,
    {
        match self.signer.sign(serialized.as_slice()) {
            Ok(signature) => Ok(SignedMessage { message: serialized, signature }),
            Err(e) => Err(SetupUpgradeError::SignedMessageCreation(e)),
        }
    }
}

} // verus!
