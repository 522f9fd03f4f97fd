//! Connection handler for the setup protocol: the decisions taken on each
//! connection while the peers exchange their application public keys.
//!
//! The handler first asks for one outbound substream, on which the caller
//! sends our signed setup message. An inbound setup message is accepted only
//! when its signature holds, its transport ids match the connection, and its
//! date is neither older than the allowed envelope age nor further in the
//! future than the allowed clock skew.

use crate::p2p::clock::{clock_reading, unix_timestamp};
use crate::p2p::identity::{spec_protobuf_key_decodes, spec_protobuf_key_verifies};
use crate::p2p::keyed::bytes_eq;
use crate::p2p::swarm::errors::SetupError;
use crate::p2p::swarm::message::setup::SignedSetupMessage;
use crate::p2p::swarm::setup::events::SetupHandlerEvent;
use crate::p2p::swarm::setup::upgrade::InboundSetupUpgrade;
use vstd::prelude::*;

verus! {

/// What a poll of the handler yields.
#[derive(Debug)]
pub enum HandlerPoll {
    /// Tell the behaviour about this event.
    Notify(SetupHandlerEvent),
    /// Open the outbound substream that carries our setup message.
    OutboundSubstreamRequest,
    /// Nothing to do.
    Pending,
}

/// `a - b`, or 0 when `b > a`.
pub open spec fn spec_saturating_sub(a: u64, b: u64) -> u64 {
    if a >= b {
        (a - b) as u64
    } else {
        0
    }
}

/// The verdict on an inbound setup message: which check fails first, if any.
///
/// The message's local id must be the connection's remote peer and its
/// remote id our own id; its age `now - date` (0 for a future date) must not
/// exceed `max_age_secs`; a future date may lead `now` by at most
/// `max_clock_skew_secs`.
pub open spec fn spec_inbound_verdict(
    signature_valid: bool,
    msg_local_transport_id: Seq<u8>,
    msg_remote_transport_id: Seq<u8>,
    msg_date: u64,
    local_transport_id: Seq<u8>,
    remote_transport_id: Seq<u8>,
    now_secs: u64,
    max_age_secs: u64,
    max_clock_skew_secs: u64,
) -> Result<(), SetupError> {
    if !signature_valid {
        Err(SetupError::SignatureVerificationFailed)
    } else if msg_remote_transport_id != local_transport_id || msg_local_transport_id
        != remote_transport_id {
        Err(SetupError::TransportIdMismatch)
    } else if spec_saturating_sub(now_secs, msg_date) > max_age_secs {
        Err(SetupError::StaleMessage)
    } else if msg_date > now_secs && msg_date - now_secs > max_clock_skew_secs {
        Err(SetupError::FutureMessage)
    } else {
        Ok(())
    }
}

/// The event a handler `h` queues for the inbound setup message `signed`,
/// whose serialized message is `serialized`, at `now`: the sender's key when
/// its signature verifies over `serialized` under that key and the checks of
/// [`spec_inbound_verdict`] pass, otherwise the first failed check.
pub open spec fn spec_inbound_setup_event(
    h: SetupHandler,
    signed: SignedSetupMessage,
    serialized: Seq<u8>,
    now: u64,
) -> SetupHandlerEvent {
    let m = signed.message;
    let valid = spec_protobuf_key_decodes(m.app_public_key@) && spec_protobuf_key_verifies(
        m.app_public_key@,
        serialized,
        signed.signature@,
    );
    match spec_inbound_verdict(
        valid,
        m.local_transport_id@,
        m.remote_transport_id@,
        m.date,
        h.local_transport_id@,
        h.remote_transport_id@,
        now,
        h.envelope_max_age_secs,
        h.max_clock_skew_secs,
    ) {
        Ok(()) => SetupHandlerEvent::AppKeyReceived { app_public_key: m.app_public_key },
        Err(e) => SetupHandlerEvent::ErrorDuringSetupHandshake(e),
    }
}

/// Law: a genuine handshake is accepted. A setup message signed under its
/// own application key over the serialized message that arrived, naming
/// this connection from the sender's side and dated now, gives the sender's
/// key.
pub proof fn lemma_genuine_setup_is_accepted(
    h: SetupHandler,
    signed: SignedSetupMessage,
    serialized: Seq<u8>,
    now: u64,
)
    requires
        spec_protobuf_key_decodes(signed.message.app_public_key@),
        spec_protobuf_key_verifies(
            signed.message.app_public_key@,
            serialized,
            signed.signature@,
        ),
        signed.message.remote_transport_id@ == h.local_transport_id@,
        signed.message.local_transport_id@ == h.remote_transport_id@,
        signed.message.date == now,
    ensures
        spec_inbound_setup_event(h, signed, serialized, now) == (SetupHandlerEvent::AppKeyReceived {
            app_public_key: signed.message.app_public_key,
        }),
{
}

/// Law: a setup message whose signature verifies, under its key, over the
/// serialized message that arrived is never refused for its signature; one
/// whose signature does not verify is always refused for it.
pub proof fn lemma_signature_refusal_is_exact(
    h: SetupHandler,
    signed: SignedSetupMessage,
    serialized: Seq<u8>,
    now: u64,
)
    ensures
        ({
            let refused = spec_inbound_setup_event(h, signed, serialized, now)
                == SetupHandlerEvent::ErrorDuringSetupHandshake(
                SetupError::SignatureVerificationFailed,
            );
            let key = signed.message.app_public_key@;
            refused <==> !(spec_protobuf_key_decodes(key) && spec_protobuf_key_verifies(
                key,
                serialized,
                signed.signature@,
            ))
        }),
{
}

/// Law: an accepted setup message was signed, names exactly this connection
/// from the sender's side, and is dated within `[now - max_age, now +
/// max_clock_skew]`.
pub proof fn lemma_accepted_setup_is_fresh_and_addressed(
    signature_valid: bool,
    msg_local: Seq<u8>,
    msg_remote: Seq<u8>,
    msg_date: u64,
    local: Seq<u8>,
    remote: Seq<u8>,
    now: u64,
    max_age: u64,
    max_skew: u64,
)
    requires
        spec_inbound_verdict(
            signature_valid,
            msg_local,
            msg_remote,
            msg_date,
            local,
            remote,
            now,
            max_age,
            max_skew,
        ) is Ok,
    ensures
        signature_valid,
        msg_remote == local,
        msg_local == remote,
        now - max_age <= msg_date <= now + max_skew,
{
}

/// Decides whether an inbound setup message is accepted, as
/// [`spec_inbound_verdict`] says.
pub fn check_inbound_setup(
    signature_valid: bool,
    msg_local_transport_id: &[u8],
    msg_remote_transport_id: &[u8],
    msg_date: u64,
    local_transport_id: &[u8],
    remote_transport_id: &[u8],
    now_secs: u64,
    max_age_secs: u64,
    max_clock_skew_secs: u64,
) -> (r: Result<(), SetupError>)
    ensures
        r == spec_inbound_verdict(
            signature_valid,
            msg_local_transport_id@,
            msg_remote_transport_id@,
            msg_date,
            local_transport_id@,
            remote_transport_id@,
            now_secs,
            max_age_secs,
            max_clock_skew_secs,
        ),
{
    if !signature_valid {
        return Err(SetupError::SignatureVerificationFailed);
    }
    if !bytes_eq(msg_remote_transport_id, local_transport_id) || !bytes_eq(
        msg_local_transport_id,
        remote_transport_id,
    ) {
        return Err(SetupError::TransportIdMismatch);
    }
    let age = now_secs.saturating_sub(msg_date);
    if age > max_age_secs {
        return Err(SetupError::StaleMessage);
    }
    if msg_date > now_secs {
        let future_delta = msg_date - now_secs;
        if future_delta > max_clock_skew_secs {
            return Err(SetupError::FutureMessage);
        }
    }
    Ok(())
}

/// Connection handler state for the setup protocol.
pub struct SetupHandler {
    /// Whether the outbound substream is still to be requested.
    pub outbound_substream_pending: bool,
    /// Events for the behaviour; the most recent is handed out first.
    pub pending_events: Vec<SetupHandlerEvent>,
    /// Our local transport id (for validation).
    pub local_transport_id: Vec<u8>,
    /// The remote peer's transport id (for validation).
    pub remote_transport_id: Vec<u8>,
    /// Maximum age of setup messages, in seconds.
    pub envelope_max_age_secs: u64,
    /// Maximum allowed lead of a message's date over our clock, in seconds.
    pub max_clock_skew_secs: u64,
    /// Whether to keep the connection alive.
    pub keep_alive: bool,
}

impl SetupHandler {
    /// A handler for a fresh connection: one outbound substream to request,
    /// no events, the connection kept alive.
    pub fn new(
        local_transport_id: Vec<u8>,
        remote_transport_id: Vec<u8>,
        envelope_max_age_secs: u64,
        max_clock_skew_secs: u64,
    ) -> (h: Self)
        ensures
            h.outbound_substream_pending,
            h.pending_events@ == Seq::<SetupHandlerEvent>::empty(),
            h.local_transport_id@ == local_transport_id@,
            h.remote_transport_id@ == remote_transport_id@,
            h.envelope_max_age_secs == envelope_max_age_secs,
            h.max_clock_skew_secs == max_clock_skew_secs,
            h.keep_alive,
    {
        SetupHandler {
            outbound_substream_pending: true,
            pending_events: Vec::new(),
            local_transport_id,
            remote_transport_id,
            envelope_max_age_secs,
            max_clock_skew_secs,
            keep_alive: true,
        }
    }

    /// The protocol on which inbound setup substreams are accepted.
    pub fn listen_protocol(&self) -> InboundSetupUpgrade {
        InboundSetupUpgrade::new()
    }

    /// Whether the connection is to be kept alive.
    pub fn connection_keep_alive(&self) -> (b: bool)
        ensures
            b == self.keep_alive,
    {
        self.keep_alive
    }

    /// Hands out the most recent pending event first; otherwise requests the
    /// outbound substream once; otherwise nothing.
    pub fn poll(&mut self) -> (p: HandlerPoll)
        ensures
            old(self).pending_events@.len() > 0 ==> {
                &&& p matches HandlerPoll::Notify(e) && e == old(self).pending_events@.last()
                &&& final(self).pending_events@ == old(self).pending_events@.drop_last()
                &&& final(self).outbound_substream_pending == old(
                    self,
                ).outbound_substream_pending
            },
            old(self).pending_events@.len() == 0 ==> {
                &&& final(self).pending_events@ == old(self).pending_events@
                &&& !final(self).outbound_substream_pending
                &&& old(self).outbound_substream_pending ==> p is OutboundSubstreamRequest
                &&& !old(self).outbound_substream_pending ==> p is Pending
            },
            final(self).keep_alive == old(self).keep_alive,
            final(self).local_transport_id == old(self).local_transport_id,
            final(self).remote_transport_id == old(self).remote_transport_id,
            final(self).envelope_max_age_secs == old(self).envelope_max_age_secs,
            final(self).max_clock_skew_secs == old(self).max_clock_skew_secs,
    {
        if let Some(event) = self.pending_events.pop() {
            return HandlerPoll::Notify(event);
        }
        if self.outbound_substream_pending {
            self.outbound_substream_pending = false;
            return HandlerPoll::OutboundSubstreamRequest;
        }
        HandlerPoll::Pending
    }

    /// Handles a fully negotiated inbound substream that delivered
    /// `signed_setup_msg`, whose serialized message is `serialized`, at time
    /// `now_secs`. The connection stops being kept alive; an event with the
    /// sender's application key, or with the first failed check, is queued.
    pub fn on_inbound_setup_at(
        &mut self,
        signed_setup_msg: SignedSetupMessage,
        serialized: &[u8],
        now_secs: u64,
    )
        ensures
            !final(self).keep_alive,
            final(self).outbound_substream_pending == old(self).outbound_substream_pending,
            final(self).local_transport_id == old(self).local_transport_id,
            final(self).remote_transport_id == old(self).remote_transport_id,
            final(self).envelope_max_age_secs == old(self).envelope_max_age_secs,
            final(self).max_clock_skew_secs == old(self).max_clock_skew_secs,
            final(self).pending_events@.len() == old(self).pending_events@.len() + 1,
            final(self).pending_events@.drop_last() == old(self).pending_events@,
            final(self).pending_events@.last() == spec_inbound_setup_event(
                *old(self),
                signed_setup_msg,
                serialized@,
                now_secs,
            ),
    {
        self.keep_alive = false;
        let signature_valid = match signed_setup_msg.verify(serialized) {
            Ok(b) => b,
            Err(_) => false,
        };
        let m = signed_setup_msg.message;
        let verdict = check_inbound_setup(
            signature_valid,
            m.local_transport_id.as_slice(),
            m.remote_transport_id.as_slice(),
            m.date,
            self.local_transport_id.as_slice(),
            self.remote_transport_id.as_slice(),
            now_secs,
            self.envelope_max_age_secs,
            self.max_clock_skew_secs,
        );
        match verdict {
            Ok(()) => {
                self.pending_events.push(
                    SetupHandlerEvent::AppKeyReceived { app_public_key: m.app_public_key },
                );
            },
            Err(error) => {
                self.pending_events.push(SetupHandlerEvent::ErrorDuringSetupHandshake(error));
            },
        }
    }

    /// Handles an inbound setup message at the current time, as
    /// [`SetupHandler::on_inbound_setup_at`] does with the clock's reading.
    pub fn on_inbound_setup(&mut self, signed_setup_msg: SignedSetupMessage, serialized: &[u8])
        ensures
            !final(self).keep_alive,
            final(self).outbound_substream_pending == old(self).outbound_substream_pending,
            final(self).local_transport_id == old(self).local_transport_id,
            final(self).remote_transport_id == old(self).remote_transport_id,
            final(self).pending_events@.len() == old(self).pending_events@.len() + 1,
            final(self).pending_events@.drop_last() == old(self).pending_events@,
            final(self).envelope_max_age_secs == old(self).envelope_max_age_secs,
            final(self).max_clock_skew_secs == old(self).max_clock_skew_secs,
            exists|now: u64|
                #[trigger] clock_reading(now) && final(self).pending_events@.last()
                    == spec_inbound_setup_event(*old(self), signed_setup_msg, serialized@, now),
    {
        let now_secs = unix_timestamp();
        assert(clock_reading(now_secs));
        self.on_inbound_setup_at(signed_setup_msg, serialized, now_secs);
    }

    /// Handles a failed outbound upgrade: the connection stops being kept
    /// alive and the behaviour learns that negotiation failed, or why the
    /// upgrade failed (`error`, the upgrade error's text).
    pub fn on_dial_upgrade_error(&mut self, negotiation_failed: bool, error: String)
        ensures
            !final(self).keep_alive,
            final(self).outbound_substream_pending == old(self).outbound_substream_pending,
            final(self).local_transport_id == old(self).local_transport_id,
            final(self).remote_transport_id == old(self).remote_transport_id,
            final(self).pending_events@ == old(self).pending_events@.push(
                if negotiation_failed {
                    SetupHandlerEvent::NegotiationFailed
                } else {
                    SetupHandlerEvent::ErrorDuringSetupHandshake(SetupError::OutboundError(error))
                },
            ),
    {
        self.keep_alive = false;
        let event = if negotiation_failed {
            SetupHandlerEvent::NegotiationFailed
        } else {
            SetupHandlerEvent::ErrorDuringSetupHandshake(SetupError::OutboundError(error))
        };
        self.pending_events.push(event);
    }

    /// Handles a failed inbound upgrade (`error`, the upgrade error's text):
    /// the behaviour learns why; the connection's keep-alive is unchanged.
    pub fn on_listen_upgrade_error(&mut self, error: String)
        ensures
            final(self).keep_alive == old(self).keep_alive,
            final(self).outbound_substream_pending == old(self).outbound_substream_pending,
            final(self).local_transport_id == old(self).local_transport_id,
            final(self).remote_transport_id == old(self).remote_transport_id,
            final(self).pending_events@ == old(self).pending_events@.push(
                SetupHandlerEvent::ErrorDuringSetupHandshake(SetupError::InboundError(error)),
            ),
    {
        self.pending_events.push(
            SetupHandlerEvent::ErrorDuringSetupHandshake(SetupError::InboundError(error)),
        );
    }
}

} // verus!
