//! The setup behaviour: which application public key each peer presented,
//! and the events handed on to the swarm.

use crate::p2p::keyed::ByteKeyMap;
use crate::p2p::swarm::setup::events::{SetupBehaviourEvent, SetupHandlerEvent};
use crate::p2p::swarm::setup::handler::SetupHandler;
use vstd::prelude::*;

verus! {

/// `forward` after binding `a` to `b`, where `backward` is its reverse: the
/// entry of whatever was bound to `b` before goes, and `a` maps to `b`.
pub open spec fn rebind(
    forward: Map<Seq<u8>, Seq<u8>>,
    backward: Map<Seq<u8>, Seq<u8>>,
    a: Seq<u8>,
    b: Seq<u8>,
) -> Map<Seq<u8>, Seq<u8>> {
    let cleared = if backward.contains_key(b) {
        forward.remove(backward[b])
    } else {
        forward
    };
    cleared.insert(a, b)
}

/// The two tables are each other's reverse: a peer maps to a key exactly
/// when that key maps to the peer.
pub open spec fn mutually_reverse(
    forward: Map<Seq<u8>, Seq<u8>>,
    backward: Map<Seq<u8>, Seq<u8>>,
) -> bool {
    forall|p: Seq<u8>, k: Seq<u8>|
        #![trigger forward.contains_key(p), backward.contains_key(k)]
        (forward.contains_key(p) && forward[p] == k) <==> (backward.contains_key(k) && backward[k]
            == p)
}

/// Binding `a` to `b` in two mutually reverse tables keeps them so.
proof fn lemma_rebind_keeps_reverse(
    forward: Map<Seq<u8>, Seq<u8>>,
    backward: Map<Seq<u8>, Seq<u8>>,
    a: Seq<u8>,
    b: Seq<u8>,
)
    requires
        mutually_reverse(forward, backward),
    ensures
        mutually_reverse(rebind(forward, backward, a, b), rebind(backward, forward, b, a)),
{
    let f2 = rebind(forward, backward, a, b);
    let b2 = rebind(backward, forward, b, a);
    assert forall|p: Seq<u8>, k: Seq<u8>|
        #![trigger f2.contains_key(p), b2.contains_key(k)]
        (f2.contains_key(p) && f2[p] == k) <==> (b2.contains_key(k) && b2[k] == p) by {
        assert(forward.contains_key(p) ==> backward.contains_key(forward[p]));
        assert(backward.contains_key(k) ==> forward.contains_key(backward[k]));
        if backward.contains_key(b) {
            assert(forward.contains_key(backward[b]));
        }
        if forward.contains_key(a) {
            assert(backward.contains_key(forward[a]));
        }
        if forward.contains_key(p) {
            assert(backward.contains_key(forward[p]));
        }
        if backward.contains_key(k) {
            assert(forward.contains_key(backward[k]));
        }
    }
}

/// Network behaviour state for the setup phase.
pub struct SetupBehaviour {
    /// Our application public key (libp2p protobuf encoding).
    app_public_key: Vec<u8>,
    /// Our transport id.
    local_transport_id: Vec<u8>,
    /// Transport id to application key.
    transport_ids: ByteKeyMap<Vec<u8>>,
    /// Application key to transport id.
    app_public_keys: ByteKeyMap<Vec<u8>>,
    /// Events for the swarm; the most recent is handed out first.
    events: Vec<SetupBehaviourEvent>,
    /// Maximum age of setup messages, in seconds.
    envelope_max_age_secs: u64,
    /// Maximum allowed lead of a message's date over our clock, in seconds.
    max_clock_skew_secs: u64,
}

impl SetupBehaviour {
    /// Both lookup tables are well formed, and each is the other's reverse.
    pub closed spec fn wf(self) -> bool {
        &&& self.transport_ids.wf()
        &&& self.app_public_keys.wf()
        &&& mutually_reverse(self.app_key_of(), self.transport_id_of())
    }

    /// Law: the two tables form a bimap: the peer `p` is bound to the key
    /// `k` in one table exactly when `k` is bound to `p` in the other.
    pub proof fn lemma_tables_are_a_bimap(self, p: Seq<u8>, k: Seq<u8>)
        requires
            self.wf(),
        ensures
            (self.app_key_of().contains_key(p) && self.app_key_of()[p] == k) <==> (
            self.transport_id_of().contains_key(k) && self.transport_id_of()[k] == p),
    {
        assert(self.app_key_of().contains_key(p) && self.transport_id_of().contains_key(k) ==> (
        self.app_key_of()[p] == k <==> self.transport_id_of()[k] == p));
    }

    /// Application key (bytes) by transport id (bytes).
    pub closed spec fn app_key_of(self) -> Map<Seq<u8>, Seq<u8>> {
        self.transport_ids.view().map_values(|v: Vec<u8>| v@)
    }

    /// Transport id (bytes) by application key (bytes).
    pub closed spec fn transport_id_of(self) -> Map<Seq<u8>, Seq<u8>> {
        self.app_public_keys.view().map_values(|v: Vec<u8>| v@)
    }

    /// Events waiting for the swarm, oldest first.
    pub closed spec fn pending(self) -> Seq<SetupBehaviourEvent> {
        self.events@
    }

    /// Our application key.
    pub closed spec fn own_app_key(self) -> Seq<u8> {
        self.app_public_key@
    }

    /// Our transport id.
    pub closed spec fn own_transport_id(self) -> Seq<u8> {
        self.local_transport_id@
    }

    /// The envelope age and clock skew limits, in seconds.
    pub closed spec fn limits(self) -> (u64, u64) {
        (self.envelope_max_age_secs, self.max_clock_skew_secs)
    }

    /// A behaviour that knows no peer yet.
    pub fn new(
        app_public_key: Vec<u8>,
        transport_id: Vec<u8>,
        envelope_max_age_secs: u64,
        max_clock_skew_secs: u64,
    ) -> (b: Self)
        ensures
            b.wf(),
            b.app_key_of() == Map::<Seq<u8>, Seq<u8>>::empty(),
            b.transport_id_of() == Map::<Seq<u8>, Seq<u8>>::empty(),
            b.pending() == Seq::<SetupBehaviourEvent>::empty(),
            b.own_app_key() == app_public_key@,
            b.own_transport_id() == transport_id@,
            b.limits() == (envelope_max_age_secs, max_clock_skew_secs),
    {
        let b = SetupBehaviour {
            app_public_key,
            local_transport_id: transport_id,
            transport_ids: ByteKeyMap::new(),
            app_public_keys: ByteKeyMap::new(),
            events: Vec::new(),
            envelope_max_age_secs,
            max_clock_skew_secs,
        };
        assert(b.app_key_of() =~= Map::<Seq<u8>, Seq<u8>>::empty());
        assert(b.transport_id_of() =~= Map::<Seq<u8>, Seq<u8>>::empty());
        b
    }

    /// The application key presented by the peer with this transport id, if
    /// the key exchange with it has happened.
    pub fn get_app_public_key_by_transport_id(&self, peer_id: &[u8]) -> (r: Option<Vec<u8>>)
        requires
            self.wf(),
        ensures
            r is Some <==> self.app_key_of().contains_key(peer_id@),
            r matches Some(k) ==> k@ == self.app_key_of()[peer_id@],
    {
        match self.transport_ids.get(peer_id) {
            Some(k) => Some(k.clone()),
            None => None,
        }
    }

    /// The transport id of the peer that presented this application key, if
    /// the key exchange with it has happened.
    pub fn get_transport_id_by_application_key(&self, app_pk: &[u8]) -> (r: Option<Vec<u8>>)
        requires
            self.wf(),
        ensures
            r is Some <==> self.transport_id_of().contains_key(app_pk@),
            r matches Some(p) ==> p@ == self.transport_id_of()[app_pk@],
    {
        match self.app_public_keys.get(app_pk) {
            Some(p) => Some(p.clone()),
            None => None,
        }
    }

    /// The handler for a newly established connection, inbound or outbound,
    /// with the peer `remote_transport_id`.
    pub fn handle_established_connection(&self, remote_transport_id: Vec<u8>) -> (h: SetupHandler)
        ensures
            h.outbound_substream_pending,
            h.pending_events@ == Seq::<crate::p2p::swarm::setup::events::SetupHandlerEvent>::empty(),
            h.local_transport_id@ == self.own_transport_id(),
            h.remote_transport_id@ == remote_transport_id@,
            (h.envelope_max_age_secs, h.max_clock_skew_secs) == self.limits(),
            h.keep_alive,
    {
        SetupHandler::new(
            self.local_transport_id.clone(),
            remote_transport_id,
            self.envelope_max_age_secs,
            self.max_clock_skew_secs,
        )
    }

    /// Takes in an event of the handler of connection `conn_id` with
    /// `peer_id`. A received key binds the peer and the key in both tables,
    /// dropping the key the peer presented before and the peer that presented
    /// the key before; every event is queued for the swarm with the peer and
    /// connection it concerns.
    pub fn on_connection_handler_event(
        &mut self,
        peer_id: Vec<u8>,
        conn_id: usize,
        event: SetupHandlerEvent,
    )
        requires
            old(self).wf(),
        ensures
            final(self).wf(),
            final(self).own_app_key() == old(self).own_app_key(),
            final(self).own_transport_id() == old(self).own_transport_id(),
            final(self).limits() == old(self).limits(),
            match event {
                SetupHandlerEvent::AppKeyReceived { app_public_key } => {
                    &&& final(self).app_key_of() == rebind(
                        old(self).app_key_of(),
                        old(self).transport_id_of(),
                        peer_id@,
                        app_public_key@,
                    )
                    &&& final(self).transport_id_of() == rebind(
                        old(self).transport_id_of(),
                        old(self).app_key_of(),
                        app_public_key@,
                        peer_id@,
                    )
                    &&& final(self).pending() == old(self).pending().push(
                        SetupBehaviourEvent::AppKeyReceived {
                            transport_id: peer_id,
                            app_public_key,
                            conn_id,
                        },
                    )
                },
                SetupHandlerEvent::NegotiationFailed => {
                    &&& final(self).app_key_of() == old(self).app_key_of()
                    &&& final(self).transport_id_of() == old(self).transport_id_of()
                    &&& final(self).pending() == old(self).pending().push(
                        SetupBehaviourEvent::NegotiationFailed { transport_id: peer_id, conn_id },
                    )
                },
                SetupHandlerEvent::ErrorDuringSetupHandshake(error) => {
                    &&& final(self).app_key_of() == old(self).app_key_of()
                    &&& final(self).transport_id_of() == old(self).transport_id_of()
                    &&& final(self).pending() == old(self).pending().push(
                        SetupBehaviourEvent::ErrorDuringSetupHandshake {
                            transport_id: peer_id,
                            conn_id,
                            error,
                        },
                    )
                },
            },
    {
        match event {
            SetupHandlerEvent::AppKeyReceived { app_public_key } => {
                let ghost fwd = self.app_key_of();
                let ghost bwd = self.transport_id_of();
                let previous_key = match self.transport_ids.get(peer_id.as_slice()) {
                    Some(k) => Some(k.clone()),
                    None => None,
                };
                let previous_peer = match self.app_public_keys.get(app_public_key.as_slice()) {
                    Some(p) => Some(p.clone()),
                    None => None,
                };
                if let Some(k) = previous_key {
                    self.app_public_keys.remove(k.as_slice());
                }
                if let Some(p) = previous_peer {
                    self.transport_ids.remove(p.as_slice());
                }
                self.transport_ids.insert(peer_id.clone(), app_public_key.clone());
                self.app_public_keys.insert(app_public_key.clone(), peer_id.clone());
                proof {
                    let f2 = rebind(fwd, bwd, peer_id@, app_public_key@);
                    let b2 = rebind(bwd, fwd, app_public_key@, peer_id@);
                    assert(self.app_key_of() =~= f2);
                    assert(self.transport_id_of() =~= b2);
                    lemma_rebind_keeps_reverse(fwd, bwd, peer_id@, app_public_key@);
                }
                self.events.push(
                    SetupBehaviourEvent::AppKeyReceived {
                        transport_id: peer_id,
                        app_public_key,
                        conn_id,
                    },
                );
            },
            SetupHandlerEvent::NegotiationFailed => {
                self.events.push(
                    SetupBehaviourEvent::NegotiationFailed { transport_id: peer_id, conn_id },
                );
            },
            SetupHandlerEvent::ErrorDuringSetupHandshake(error) => {
                self.events.push(
                    SetupBehaviourEvent::ErrorDuringSetupHandshake {
                        transport_id: peer_id,
                        conn_id,
                        error,
                    },
                );
            },
        }
    }

    /// Hands the most recent queued event to the swarm, if any.
    pub fn poll(&mut self) -> (r: Option<SetupBehaviourEvent>)
        requires
            old(self).wf(),
        ensures
            final(self).wf(),
            final(self).app_key_of() == old(self).app_key_of(),
            final(self).transport_id_of() == old(self).transport_id_of(),
            final(self).own_app_key() == old(self).own_app_key(),
            final(self).own_transport_id() == old(self).own_transport_id(),
            final(self).limits() == old(self).limits(),
            old(self).pending().len() == 0 ==> r is None && final(self).pending() == old(
                self,
            ).pending(),
            old(self).pending().len() > 0 ==> r == Some(old(self).pending().last())
                && final(self).pending() == old(self).pending().drop_last(),
    {
        self.events.pop()
    }
}

} // verus!
