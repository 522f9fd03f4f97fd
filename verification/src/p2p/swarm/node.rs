//! The decisions of the P2P node's event loop.
//!
//! The loop itself (waiting on the swarm, the command channels and the
//! cancellation token, dialing, reporting to gossipsub, sending on channels)
//! runs outside the library. Each event or command it receives is handed to
//! one of the functions here, which decides what to do and keeps the node's
//! bookkeeping; the loop then carries the decision out.

use crate::p2p::identity::{spec_protobuf_key_decodes, spec_protobuf_key_verifies};
use crate::p2p::swarm::dial_manager::{
    queue_addresses, queue_from_addresses, queue_pop_front, DialManager,
};
use crate::p2p::swarm::filtering::{AllowList, Filtering};
use crate::p2p::swarm::message::SignedMessage;
use crate::p2p::keyed::{bytes_eq, ByteKeyMap};
use crate::p2p::swarm::setup::behavior::SetupBehaviour;
use crate::p2p::swarm::setup::events::SetupBehaviourEvent;
use libp2p::Multiaddr;
use vstd::prelude::*;

verus! {

// ---------------------------------------------------------------------------
// Addresses: QUIC first.
// ---------------------------------------------------------------------------

/// The protocol tags of a multiaddr given by its bytes (such as `ip4`,
/// `udp`, `quic-v1`), outermost first; `None` when the bytes are not a
/// multiaddr.
pub uninterp spec fn spec_protocol_tags(addr: Seq<u8>) -> Option<Seq<Seq<u8>>>;

/// Trusted: `Multiaddr::try_from(Vec<u8>)`, then `protocol_stack()`, each tag
/// taken as its bytes. The result is named by [`spec_protocol_tags`].
#[verifier::external_body]
fn protocol_tags(addr: &[u8]) -> (r: Option<Vec<Vec<u8>>>)
    ensures
        spec_protocol_tags(addr@) == (match r {
            Some(tags) => Some(tags@.map_values(|t: Vec<u8>| t@)),
            None => None::<Seq<Seq<u8>>>,
        }),
{
    match Multiaddr::try_from(addr.to_vec()) {
        Ok(m) => Some(m.protocol_stack().map(|t| t.as_bytes().to_vec()).collect()),
        Err(_) => None,
    }
}

/// The bytes of `quic`.
pub open spec fn quic_tag() -> Seq<u8> {
    seq![113u8, 117u8, 105u8, 99u8]
}

/// `needle` occurs in `hay` at position `at`.
pub open spec fn occurs_at(hay: Seq<u8>, needle: Seq<u8>, at: int) -> bool {
    0 <= at && at + needle.len() <= hay.len() && hay.subrange(at, at + needle.len()) == needle
}

/// `needle` occurs somewhere in `hay`.
pub open spec fn contains_bytes(hay: Seq<u8>, needle: Seq<u8>) -> bool {
    exists|at: int| #[trigger] occurs_at(hay, needle, at)
}

/// An address is a QUIC address when it is a multiaddr one of whose
/// protocol tags contains `quic`.
pub open spec fn is_quic_address(addr: Seq<u8>) -> bool {
    match spec_protocol_tags(addr) {
        Some(tags) => some_tag_has_quic(tags),
        None => false,
    }
}

/// One of `tags` contains `quic`.
pub open spec fn some_tag_has_quic(tags: Seq<Seq<u8>>) -> bool {
    exists|i: int| 0 <= i < tags.len() && contains_bytes(#[trigger] tags[i], quic_tag())
}

/// The addresses reordered to try QUIC first: the QUIC addresses, then the
/// others, each group in its given order (a stable sort on "not QUIC").
pub open spec fn quic_first(addrs: Seq<Seq<u8>>) -> Seq<Seq<u8>> {
    addrs.filter(|a: Seq<u8>| is_quic_address(a)) + addrs.filter(|a: Seq<u8>| !is_quic_address(a))
}

/// Whether `tag` contains the bytes `quic`.
fn tag_contains_quic(tag: &Vec<u8>) -> (r: bool)
    ensures
        r == contains_bytes(tag@, quic_tag()),
{
    let n = tag.len();
    if n < 4 {
        assert forall|at: int| !occurs_at(tag@, quic_tag(), at) by {}
        return false;
    }
    let mut i: usize = 0;
    while i <= n - 4
        invariant
            n == tag@.len(),
            4 <= n,
            i <= n - 3,
            forall|at: int| 0 <= at < i ==> !#[trigger] occurs_at(tag@, quic_tag(), at),
        decreases n - i,
    {
        if tag[i] == 113u8 && tag[i + 1] == 117u8 && tag[i + 2] == 105u8 && tag[i + 3] == 99u8 {
            assert(tag@.subrange(i as int, i + 4) =~= quic_tag());
            assert(occurs_at(tag@, quic_tag(), i as int));
            return true;
        }
        assert(!occurs_at(tag@, quic_tag(), i as int)) by {
            if occurs_at(tag@, quic_tag(), i as int) {
                assert(tag@.subrange(i as int, i + 4)[0] == tag@[i as int]);
                assert(tag@.subrange(i as int, i + 4)[1] == tag@[i + 1]);
                assert(tag@.subrange(i as int, i + 4)[2] == tag@[i + 2]);
                assert(tag@.subrange(i as int, i + 4)[3] == tag@[i + 3]);
            }
        }
        i = i + 1;
    }
    assert forall|at: int| !occurs_at(tag@, quic_tag(), at) by {}
    false
}

/// Whether `addr` (multiaddr bytes) is a QUIC address.
pub fn is_quic(addr: &[u8]) -> (r: bool)
    ensures
        r == is_quic_address(addr@),
{
    match protocol_tags(addr) {
        None => false,
        Some(tags) => {
            let ghost ts = tags@.map_values(|t: Vec<u8>| t@);
            let n = tags.len();
            let mut i: usize = 0;
            while i < n
                invariant
                    n == tags@.len(),
                    ts == tags@.map_values(|t: Vec<u8>| t@),
                    spec_protocol_tags(addr@) == Some(ts),
                    i <= n,
                    forall|j: int| 0 <= j < i ==> !contains_bytes(#[trigger] ts[j], quic_tag()),
                decreases n - i,
            {
                if tag_contains_quic(&tags[i]) {
                    assert(spec_protocol_tags(addr@) == Some(ts));
                    assert(0 <= i < ts.len() && contains_bytes(ts[i as int], quic_tag()));
                    assert(some_tag_has_quic(ts));
                    return true;
                }
                i = i + 1;
            }
            false
        },
    }
}

/// Reorders `addresses` to try QUIC addresses first, keeping the order
/// within each group.
pub fn order_quic_first(addresses: Vec<Vec<u8>>) -> (r: Vec<Vec<u8>>)
    ensures
        r@.map_values(|a: Vec<u8>| a@) == quic_first(addresses@.map_values(|a: Vec<u8>| a@)),
{
    let ghost all = addresses@.map_values(|a: Vec<u8>| a@);
    let ghost p = |a: Seq<u8>| is_quic_address(a);
    let ghost np = |a: Seq<u8>| !is_quic_address(a);
    let mut quic: Vec<Vec<u8>> = Vec::new();
    let mut other: Vec<Vec<u8>> = Vec::new();
    let n = addresses.len();
    let mut i: usize = 0;
    while i < n
        invariant
            n == addresses@.len(),
            all == addresses@.map_values(|a: Vec<u8>| a@),
            p == (|a: Seq<u8>| is_quic_address(a)),
            np == (|a: Seq<u8>| !is_quic_address(a)),
            i <= n,
            quic@.map_values(|a: Vec<u8>| a@) == all.take(i as int).filter(p),
            other@.map_values(|a: Vec<u8>| a@) == all.take(i as int).filter(np),
        decreases n - i,
    {
        let a = addresses[i].clone();
        let q = is_quic(a.as_slice());
        proof {
            assert(all.take(i + 1) == all.take(i as int).push(all[i as int]));
            all.take(i as int).lemma_filter_push(all[i as int], p);
            all.take(i as int).lemma_filter_push(all[i as int], np);
        }
        let ghost old_quic = quic@;
        let ghost old_other = other@;
        if q {
            quic.push(a);
            assert(quic@ == old_quic.push(a));
            assert(quic@.map_values(|a: Vec<u8>| a@) =~= all.take(i + 1).filter(p));
            assert(other@.map_values(|a: Vec<u8>| a@) =~= all.take(i + 1).filter(np));
        } else {
            other.push(a);
            assert(other@ == old_other.push(a));
            assert(quic@.map_values(|a: Vec<u8>| a@) =~= all.take(i + 1).filter(p));
            assert(other@.map_values(|a: Vec<u8>| a@) =~= all.take(i + 1).filter(np));
        }
        i = i + 1;
    }
    assert(all.take(n as int) =~= all);
    let ghost qv = quic@;
    let ghost ov = other@;
    quic.append(&mut other);
    assert(quic@ == qv + ov);
    assert(quic@.map_values(|a: Vec<u8>| a@) =~= qv.map_values(|a: Vec<u8>| a@) + ov.map_values(
        |a: Vec<u8>| a@,
    ));
    quic
}

/// Law: the QUIC-first order puts every QUIC address before every other
/// address, and keeps each address: the result is a reordering of the input.
pub proof fn lemma_quic_first_is_partition(addrs: Seq<Seq<u8>>)
    ensures
        quic_first(addrs).len() == addrs.len(),
        quic_first(addrs).to_multiset() == addrs.to_multiset(),
        forall|i: int, j: int|
            0 <= i < j < quic_first(addrs).len() && is_quic_address(#[trigger] quic_first(addrs)[j])
                ==> is_quic_address(#[trigger] quic_first(addrs)[i]),
    decreases addrs.len(),
{
    let p = |a: Seq<u8>| is_quic_address(a);
    let np = |a: Seq<u8>| !is_quic_address(a);
    let qs = addrs.filter(p);
    let os = addrs.filter(np);
    assert(quic_first(addrs) == qs + os);
    assert forall|i: int| 0 <= i < qs.len() implies is_quic_address(#[trigger] qs[i]) by {
        addrs.lemma_filter_pred(p, i);
    }
    assert forall|i: int| 0 <= i < os.len() implies !is_quic_address(#[trigger] os[i]) by {
        addrs.lemma_filter_pred(np, i);
    }
    assert forall|i: int, j: int|
        0 <= i < j < quic_first(addrs).len() && is_quic_address(#[trigger] quic_first(addrs)[j])
            implies is_quic_address(#[trigger] quic_first(addrs)[i]) by {
        if j >= qs.len() {
            assert(quic_first(addrs)[j] == os[j - qs.len()]);
        } else {
            assert(quic_first(addrs)[i] == qs[i]);
        }
    }
    if addrs.len() == 0 {
        assert(qs =~= Seq::<Seq<u8>>::empty());
        assert(os =~= Seq::<Seq<u8>>::empty());
        assert(quic_first(addrs) =~= addrs);
    } else {
        let rest = addrs.drop_last();
        let x = addrs.last();
        assert(addrs == rest.push(x));
        rest.lemma_filter_push(x, p);
        rest.lemma_filter_push(x, np);
        lemma_quic_first_is_partition(rest);
        let rq = rest.filter(p);
        let ro = rest.filter(np);
        assert(quic_first(rest) == rq + ro);
        vstd::seq_lib::lemma_multiset_commutative(rq, ro);
        vstd::seq_lib::lemma_multiset_commutative(qs, os);
        if is_quic_address(x) {
            assert(qs == rq.push(x));
            assert(os == ro);
            vstd::seq_lib::to_multiset_build(rq, x);
            vstd::seq_lib::to_multiset_build(rest, x);
        } else {
            assert(qs == rq);
            assert(os == ro.push(x));
            vstd::seq_lib::to_multiset_build(ro, x);
            vstd::seq_lib::to_multiset_build(rest, x);
        }
        assert(quic_first(addrs).to_multiset() =~= addrs.to_multiset());
    }
    vstd::seq_lib::to_multiset_len(quic_first(addrs));
    vstd::seq_lib::to_multiset_len(addrs);
}

// ---------------------------------------------------------------------------
// Setup events.
// ---------------------------------------------------------------------------

/// What to do with a peer after a setup event.
#[derive(Debug, Clone, PartialEq, Eq)]
pub enum SetupAction {
    /// Keep the connection.
    Keep,
    /// Disconnect the peer with this transport id.
    Disconnect { transport_id: Vec<u8> },
}

/// The transport id a setup event concerns.
pub open spec fn event_transport_id(event: SetupBehaviourEvent) -> Seq<u8> {
    match event {
        SetupBehaviourEvent::AppKeyReceived { transport_id, .. } => transport_id@,
        SetupBehaviourEvent::NegotiationFailed { transport_id, .. } => transport_id@,
        SetupBehaviourEvent::ErrorDuringSetupHandshake { transport_id, .. } => transport_id@,
    }
}

/// Whether a setup event disconnects the peer: a peer whose key was
/// received stays connected only when it is not banned and its key is on the
/// allow list; a failed negotiation or handshake disconnects the peer.
pub open spec fn spec_setup_disconnects(
    event: SetupBehaviourEvent,
    banned: bool,
    allowlist: AllowList,
) -> bool {
    match event {
        SetupBehaviourEvent::AppKeyReceived { app_public_key, .. } => banned || !allowlist.listed(
            app_public_key@,
        ),
        _ => true,
    }
}

/// Decides on a setup event. `banned` says whether the key in an
/// `AppKeyReceived` event is banned.
pub fn setup_event_action(event: &SetupBehaviourEvent, banned: bool, allowlist: &AllowList) -> (a:
    SetupAction)
    requires
        allowlist.app_pk_allowlist_wf(),
    ensures
        spec_setup_disconnects(*event, banned, *allowlist) ==> (a matches SetupAction::Disconnect {
            transport_id,
        } && transport_id@ == event_transport_id(*event)),
        !spec_setup_disconnects(*event, banned, *allowlist) ==> a is Keep,
{
    match event {
        SetupBehaviourEvent::AppKeyReceived { transport_id, app_public_key, .. } => {
            if banned {
                return SetupAction::Disconnect { transport_id: transport_id.clone() };
            }
            if allowlist.is_app_pk_respected_enough_to_connect(app_public_key.as_slice()) {
                SetupAction::Keep
            } else {
                SetupAction::Disconnect { transport_id: transport_id.clone() }
            }
        },
        SetupBehaviourEvent::NegotiationFailed { transport_id, .. } => SetupAction::Disconnect {
            transport_id: transport_id.clone(),
        },
        SetupBehaviourEvent::ErrorDuringSetupHandshake { transport_id, .. } => {
            SetupAction::Disconnect { transport_id: transport_id.clone() }
        },
    }
}

// ---------------------------------------------------------------------------
// Inbound gossipsub, request and response messages.
// ---------------------------------------------------------------------------

/// An inbound message as decoded from the wire: the signed wrapper, and the
/// sender's key, creation date and payload read from the wrapper's content.
#[derive(Debug, Clone)]
pub struct DecodedMessage {
    /// The signed wrapper.
    pub signed: SignedMessage,
    /// The key the content names as its sender (libp2p protobuf encoding).
    pub app_public_key: Vec<u8>,
    /// The content's creation time, seconds since the Unix epoch.
    pub date: u64,
    /// The payload carried by the content.
    pub payload: Vec<u8>,
}

/// The clock and the limits an envelope's date is checked against.
#[derive(Debug, Clone, Copy, PartialEq, Eq)]
pub struct EnvelopeClock {
    /// Now, seconds since the Unix epoch.
    pub now_secs: u64,
    /// The oldest an envelope may be, in seconds.
    pub max_age_secs: u64,
    /// How far an envelope's date may lead `now_secs`, in seconds.
    pub max_clock_skew_secs: u64,
}

/// Why an inbound message is rejected.
#[derive(Debug, Clone, Copy, PartialEq, Eq)]
pub enum RejectReason {
    /// The wrapper or its content did not decode.
    Undecodable,
    /// The content names a sender other than the peer it came from.
    SenderMismatch,
    /// The sender's key did not decode, so the signature could not be checked.
    KeyUndecodable,
    /// The signature does not verify under the sender's key.
    BadSignature,
    /// The envelope is older than the allowed age.
    StaleMessage,
    /// The envelope is dated further ahead than the allowed clock skew.
    FutureMessage,
    /// The sender's key is not on the allow list.
    NotAllowed,
}

/// The verdict on an inbound message.
#[derive(Debug, Clone, PartialEq, Eq)]
pub enum InboundVerdict {
    /// The peer that passed the message on has done no setup: dropped
    /// without a report.
    UnknownPeer,
    /// That peer is muted for this protocol: dropped without a report.
    Muted,
    /// Rejected.
    Rejected(RejectReason),
    /// Accepted: `message` from the authenticated `sender`.
    Accepted { sender: Vec<u8>, message: Vec<u8> },
}

/// `a - b`, or 0 when `b` is larger.
pub open spec fn spec_secs_since(a: u64, b: u64) -> int {
    if a >= b {
        a - b
    } else {
        0
    }
}

/// Why an envelope dated `date` is refused at `clock`, if it is: older than
/// the allowed age, or dated further ahead of now than the allowed skew.
pub open spec fn spec_envelope_age_verdict(date: u64, clock: EnvelopeClock) -> Option<RejectReason> {
    if spec_secs_since(clock.now_secs, date) > clock.max_age_secs {
        Some(RejectReason::StaleMessage)
    } else if date > clock.now_secs && date - clock.now_secs > clock.max_clock_skew_secs {
        Some(RejectReason::FutureMessage)
    } else {
        None
    }
}

/// The verdict on an inbound message: the relaying peer must have done setup
/// and not be muted; the message must decode; where `same_sender` holds, the
/// key it names must be that peer's key; its signature must verify under the
/// key it names; it must be fresh at `clock`; and, where an allow list
/// applies, the key it names must be on it.
pub open spec fn spec_inbound_verdict(
    peer_app_key: Option<Seq<u8>>,
    muted: bool,
    decoded: Option<DecodedMessage>,
    same_sender: bool,
    clock: EnvelopeClock,
    allowed: spec_fn(Seq<u8>) -> bool,
) -> InboundVerdict {
    if peer_app_key is None {
        InboundVerdict::UnknownPeer
    } else if muted {
        InboundVerdict::Muted
    } else {
        match decoded {
            None => InboundVerdict::Rejected(RejectReason::Undecodable),
            Some(d) => {
                if same_sender && Some(d.app_public_key@) != peer_app_key {
                    InboundVerdict::Rejected(RejectReason::SenderMismatch)
                } else if !spec_protobuf_key_decodes(d.app_public_key@) {
                    InboundVerdict::Rejected(RejectReason::KeyUndecodable)
                } else if !spec_protobuf_key_verifies(
                    d.app_public_key@,
                    d.signed.message@,
                    d.signed.signature@,
                ) {
                    InboundVerdict::Rejected(RejectReason::BadSignature)
                } else if let Some(reason) = spec_envelope_age_verdict(d.date, clock) {
                    InboundVerdict::Rejected(reason)
                } else if !allowed(d.app_public_key@) {
                    InboundVerdict::Rejected(RejectReason::NotAllowed)
                } else {
                    InboundVerdict::Accepted { sender: d.app_public_key, message: d.payload }
                }
            },
        }
    }
}

/// Law: an accepted message came through a peer that did setup and is not
/// muted, decoded, carries a signature that verifies under the key it names
/// over the signed content, is dated within `[now - max_age, now +
/// max_clock_skew]`, and its key passes the allow list; where the sender must
/// be the peer, that key is the peer's application key. The sender reported
/// is that key and the message is the decoded payload.
pub proof fn lemma_accepted_message_is_authentic(
    peer_app_key: Option<Seq<u8>>,
    muted: bool,
    decoded: Option<DecodedMessage>,
    same_sender: bool,
    clock: EnvelopeClock,
    allowed: spec_fn(Seq<u8>) -> bool,
)
    requires
        spec_inbound_verdict(peer_app_key, muted, decoded, same_sender, clock, allowed) is Accepted,
    ensures
        peer_app_key is Some,
        !muted,
        decoded matches Some(d) && {
            &&& same_sender ==> peer_app_key == Some(d.app_public_key@)
            &&& spec_protobuf_key_decodes(d.app_public_key@)
            &&& spec_protobuf_key_verifies(d.app_public_key@, d.signed.message@, d.signed.signature@)
            &&& clock.now_secs - clock.max_age_secs <= d.date <= clock.now_secs
                + clock.max_clock_skew_secs
            &&& allowed(d.app_public_key@)
            &&& spec_inbound_verdict(peer_app_key, muted, decoded, same_sender, clock, allowed)
                == InboundVerdict::Accepted { sender: d.app_public_key, message: d.payload }
        },
{
}

/// Law: an envelope older than the allowed age, or dated further ahead of
/// now than the allowed skew, is never accepted, over gossip or over
/// request-response; the verdict names the reason once the earlier checks
/// passed.
pub proof fn lemma_out_of_date_envelopes_are_dropped(
    peer_app_key: Option<Seq<u8>>,
    muted: bool,
    d: DecodedMessage,
    same_sender: bool,
    clock: EnvelopeClock,
    allowed: spec_fn(Seq<u8>) -> bool,
)
    requires
        spec_envelope_age_verdict(d.date, clock) is Some,
    ensures
        !(spec_inbound_verdict(peer_app_key, muted, Some(d), same_sender, clock, allowed) is Accepted),
        (peer_app_key is Some && !muted && (same_sender ==> peer_app_key == Some(d.app_public_key@))
            && spec_protobuf_key_decodes(d.app_public_key@) && spec_protobuf_key_verifies(
            d.app_public_key@,
            d.signed.message@,
            d.signed.signature@,
        )) ==> spec_inbound_verdict(peer_app_key, muted, Some(d), same_sender, clock, allowed)
            == InboundVerdict::Rejected(spec_envelope_age_verdict(d.date, clock)->0),
{
}

/// Law: an envelope checked at the moment it was dated is fresh: it is
/// neither too old nor ahead of the clock, whatever the limits. A message
/// stamped with the clock's reading when created therefore passes the age
/// checks at that reading.
pub proof fn lemma_envelope_dated_now_is_fresh(date: u64, clock: EnvelopeClock)
    requires
        clock.now_secs == date,
    ensures
        spec_envelope_age_verdict(date, clock) is None,
{
}

/// Law: a request or a response is accepted only when the key its content
/// names is the application key of the peer it came from, and the signature
/// verifies under that key; a message signed by any other key is rejected.
pub proof fn lemma_requests_verify_under_the_peer_key(
    peer_key: Seq<u8>,
    muted: bool,
    d: DecodedMessage,
    clock: EnvelopeClock,
)
    ensures
        d.app_public_key@ != peer_key ==> !muted ==> spec_inbound_verdict(
            Some(peer_key),
            muted,
            Some(d),
            true,
            clock,
            |k: Seq<u8>| true,
        ) == InboundVerdict::Rejected(RejectReason::SenderMismatch),
        spec_inbound_verdict(Some(peer_key), muted, Some(d), true, clock, |k: Seq<u8>| true)
            is Accepted ==> spec_protobuf_key_verifies(
            peer_key,
            d.signed.message@,
            d.signed.signature@,
        ),
{
}

/// Why an envelope dated `date` is refused at `clock`, if it is.
pub fn envelope_age_verdict(date: u64, clock: &EnvelopeClock) -> (r: Option<RejectReason>)
    ensures
        r == spec_envelope_age_verdict(date, *clock),
{
    let age = clock.now_secs.saturating_sub(date);
    if age > clock.max_age_secs {
        return Some(RejectReason::StaleMessage);
    }
    if date > clock.now_secs && date - clock.now_secs > clock.max_clock_skew_secs {
        return Some(RejectReason::FutureMessage);
    }
    None
}

/// The checks shared by all inbound messages, short of the allow list.
fn check_inbound(
    peer_app_key: &Option<Vec<u8>>,
    muted: bool,
    decoded: &Option<DecodedMessage>,
    same_sender: bool,
    clock: &EnvelopeClock,
) -> (r: Option<InboundVerdict>)
    ensures
        ({
            let v = spec_inbound_verdict(
                key_view(*peer_app_key),
                muted,
                *decoded,
                same_sender,
                *clock,
                |k: Seq<u8>| true,
            );
            match r {
                Some(w) => w == v && !(w is Accepted),
                None => v is Accepted,
            }
        }),
{
    let peer = match peer_app_key {
        None => {
            return Some(InboundVerdict::UnknownPeer);
        },
        Some(p) => p,
    };
    if muted {
        return Some(InboundVerdict::Muted);
    }
    match decoded {
        None => Some(InboundVerdict::Rejected(RejectReason::Undecodable)),
        Some(d) => {
            if same_sender && !bytes_eq(d.app_public_key.as_slice(), peer.as_slice()) {
                return Some(InboundVerdict::Rejected(RejectReason::SenderMismatch));
            }
            match d.signed.verify_signature(d.app_public_key.as_slice()) {
                Err(_) => Some(InboundVerdict::Rejected(RejectReason::KeyUndecodable)),
                Ok(false) => Some(InboundVerdict::Rejected(RejectReason::BadSignature)),
                Ok(true) => match envelope_age_verdict(d.date, clock) {
                    Some(reason) => Some(InboundVerdict::Rejected(reason)),
                    None => None,
                },
            }
        },
    }
}

/// The peer's key as a sequence.
pub open spec fn key_view(k: Option<Vec<u8>>) -> Option<Seq<u8>> {
    match k {
        Some(k) => Some(k@),
        None => None,
    }
}

/// Decides on a gossipsub message relayed by the peer whose application key
/// is `peer_app_key` (`None`: no setup with it), `muted` for gossipsub;
/// `decoded` is `None` when the message did not decode. Gossip travels over
/// several hops, so its author need not be the relaying peer; the author
/// must be on the allow list, and the envelope fresh at `clock`. A rejection
/// is reported to gossipsub; an accepted message is delivered to the handles.
pub fn gossip_verdict(
    peer_app_key: Option<Vec<u8>>,
    muted: bool,
    decoded: Option<DecodedMessage>,
    clock: &EnvelopeClock,
    allowlist: &AllowList,
) -> (v: InboundVerdict)
    requires
        allowlist.app_pk_allowlist_wf(),
    ensures
        v == spec_inbound_verdict(
            key_view(peer_app_key),
            muted,
            decoded,
            false,
            *clock,
            |k: Seq<u8>| allowlist.listed(k),
        ),
{
    match check_inbound(&peer_app_key, muted, &decoded, false, clock) {
        Some(v) => v,
        None => {
            let d = decoded.unwrap();
            if allowlist.is_app_pk_respected_enough_to_connect(d.app_public_key.as_slice()) {
                InboundVerdict::Accepted { sender: d.app_public_key, message: d.payload }
            } else {
                InboundVerdict::Rejected(RejectReason::NotAllowed)
            }
        },
    }
}

/// Decides on a request or a response from the peer whose application key
/// is `peer_app_key`, `muted` for request-response. The envelope must be
/// signed by that peer's application key and fresh at `clock`; no allow list
/// applies here, as the handshake already applied it. Anything but an
/// accepted message is dropped.
pub fn request_response_verdict(
    peer_app_key: Option<Vec<u8>>,
    muted: bool,
    decoded: Option<DecodedMessage>,
    clock: &EnvelopeClock,
) -> (v: InboundVerdict)
    ensures
        v == spec_inbound_verdict(
            key_view(peer_app_key),
            muted,
            decoded,
            true,
            *clock,
            |k: Seq<u8>| true,
        ),
{
    match check_inbound(&peer_app_key, muted, &decoded, true, clock) {
        Some(v) => v,
        None => {
            let d = decoded.unwrap();
            InboundVerdict::Accepted { sender: d.app_public_key, message: d.payload }
        },
    }
}

// ---------------------------------------------------------------------------
// Dialing a peer at a list of addresses, one after the other.
// ---------------------------------------------------------------------------

/// The first step of a `ConnectToPeer` command.
#[derive(Debug, Clone, PartialEq, Eq)]
pub enum DialStart {
    /// No address was given: nothing to do.
    NoAddresses,
    /// The peer is being dialed already: nothing to do.
    AlreadyDialing,
    /// Dial `address` first; the other addresses wait in the peer's queue.
    Dial { address: Vec<u8> },
}

/// Starts dialing the peer with application key `app_public_key` at
/// `addresses`: QUIC addresses first, each group in its given order. The
/// first address is handed back to be dialed, the rest are queued. Nothing
/// changes when no address is given or the peer is being dialed already.
pub fn start_dialing(dials: &mut DialManager, app_public_key: Vec<u8>, addresses: Vec<Vec<u8>>) -> (r:
    DialStart)
    requires
        old(dials).wf(),
    ensures
        final(dials).wf(),
        final(dials).connections() == old(dials).connections(),
        addresses@.len() == 0 ==> r is NoAddresses && final(dials).queues() == old(dials).queues(),
        addresses@.len() > 0 && old(dials).queues().contains_key(app_public_key@) ==> r is AlreadyDialing
            && final(dials).queues() == old(dials).queues(),
        addresses@.len() > 0 && !old(dials).queues().contains_key(app_public_key@) ==> {
            let order = quic_first(addresses@.map_values(|a: Vec<u8>| a@));
            &&& r matches DialStart::Dial { address } && address@ == order[0]
            &&& final(dials).queues() == old(dials).queues().insert(
                app_public_key@,
                order.drop_first(),
            )
        },
{
    if addresses.len() == 0 {
        return DialStart::NoAddresses;
    }
    if dials.has_app_public_key(app_public_key.as_slice()) {
        return DialStart::AlreadyDialing;
    }
    let ghost all = addresses@.map_values(|a: Vec<u8>| a@);
    let ordered = order_quic_first(addresses);
    proof {
        lemma_quic_first_is_partition(all);
    }
    let ghost order = quic_first(all);
    assert(ordered@.map_values(|a: Vec<u8>| a@) == order);
    assert(order.len() > 0);
    let mut queue = queue_from_addresses(ordered);
    assert(queue_addresses(queue) == order);
    let first = queue_pop_front(&mut queue);
    let address = first.unwrap();
    assert(address@ == order[0]);
    dials.insert_queue(app_public_key, queue);
    DialStart::Dial { address }
}

/// A connection was established. When it was one of the node's dials, the
/// peer it dialed is reached: its queue and the connection's entry are
/// dropped, and its key is returned.
pub fn connection_established(dials: &mut DialManager, conn_id: usize) -> (r: Option<Vec<u8>>)
    requires
        old(dials).wf(),
    ensures
        final(dials).wf(),
        !old(dials).connections().contains_key(conn_id) ==> r is None && final(dials).queues()
            == old(dials).queues() && final(dials).connections() == old(dials).connections(),
        old(dials).connections().contains_key(conn_id) ==> {
            let k = old(dials).connections()[conn_id];
            &&& r matches Some(key) && key@ == k
            &&& final(dials).queues() == old(dials).queues().remove(k)
            &&& final(dials).connections() == old(dials).connections().remove(conn_id)
        },
{
    match dials.get_app_public_key_by_connection_id(&conn_id) {
        None => None,
        Some(key) => {
            dials.remove_queue(key.as_slice());
            dials.remove_connid(&conn_id);
            Some(key)
        },
    }
}

/// What follows a failed outgoing connection.
#[derive(Debug, Clone, PartialEq, Eq)]
pub enum DialFailure {
    /// The connection was not one of the node's dials.
    Untracked,
    /// Dial the peer's next address.
    Retry { app_public_key: Vec<u8>, address: Vec<u8> },
    /// The peer's addresses are used up; its queue is dropped.
    Exhausted { app_public_key: Vec<u8> },
}

/// An outgoing connection failed. When it was one of the node's dials, its
/// entry is dropped and the peer's next queued address is taken to be
/// dialed; when none is left, the peer's queue is dropped.
pub fn outgoing_connection_failed(dials: &mut DialManager, conn_id: usize) -> (r: DialFailure)
    requires
        old(dials).wf(),
    ensures
        final(dials).wf(),
        !old(dials).connections().contains_key(conn_id) ==> r is Untracked && final(dials).queues()
            == old(dials).queues() && final(dials).connections() == old(dials).connections(),
        old(dials).connections().contains_key(conn_id) ==> {
            let k = old(dials).connections()[conn_id];
            let q = old(dials).queues();
            &&& final(dials).connections() == old(dials).connections().remove(conn_id)
            &&& (q.contains_key(k) && q[k].len() > 0) ==> (r matches DialFailure::Retry {
                app_public_key,
                address,
            } && app_public_key@ == k && address@ == q[k][0] && final(dials).queues() == q.insert(
                k,
                q[k].drop_first(),
            ))
            &&& !(q.contains_key(k) && q[k].len() > 0) ==> (r matches DialFailure::Exhausted {
                app_public_key,
            } && app_public_key@ == k && final(dials).queues() == q.remove(k))
        },
{
    match dials.get_app_public_key_by_connection_id(&conn_id) {
        None => DialFailure::Untracked,
        Some(key) => {
            dials.remove_connid(&conn_id);
            match dials.pop_next_addr(key.as_slice()) {
                Some(address) => DialFailure::Retry { app_public_key: key, address },
                None => {
                    dials.remove_queue(key.as_slice());
                    DialFailure::Exhausted { app_public_key: key }
                },
            }
        },
    }
}


// ---------------------------------------------------------------------------
// Establishing the configured connections at startup.
// ---------------------------------------------------------------------------

/// Default number of retries when dialing an address at startup.
pub const DEFAULT_MAX_RETRIES: usize = 3;

/// Default pause between dial attempts, in milliseconds.
pub const DEFAULT_DIAL_TIMEOUT_MS: u64 = 250;

/// Default timeout for general operations, in milliseconds.
pub const DEFAULT_GENERAL_TIMEOUT_MS: u64 = 250;

/// Default interval between connection checks, in milliseconds.
pub const DEFAULT_CONNECTION_CHECK_INTERVAL_MS: u64 = 500;

/// Default timeout for channel operations, in milliseconds.
pub const DEFAULT_CHANNEL_TIMEOUT_MS: u64 = 5000;

/// Default buffer size of the gossip event channel.
pub const DEFAULT_GOSSIP_EVENT_BUFFER_SIZE: usize = 256;

/// Default buffer size of the command channels.
pub const DEFAULT_COMMAND_BUFFER_SIZE: usize = 64;

/// Default buffer size of the request-response event channel.
pub const DEFAULT_REQ_RESP_EVENT_BUFFER_SIZE: usize = 64;

/// Default buffer size of the gossip command channel.
pub const DEFAULT_GOSSIP_COMMAND_BUFFER_SIZE: usize = 64;

/// Default oldest age of an accepted envelope, in seconds.
pub const DEFAULT_ENVELOPE_MAX_AGE_SECS: u64 = 300;

/// Default lead of an envelope's date over our clock, in seconds.
pub const DEFAULT_MAX_CLOCK_SKEW_SECS: u64 = 0;

/// The optional settings of a node, as configured.
#[derive(Debug, Clone, Copy, Default)]
pub struct NodeOptions {
    /// Retries when dialing an address at startup.
    pub max_retries: Option<usize>,
    /// Pause between dial attempts, in milliseconds.
    pub dial_timeout_ms: Option<u64>,
    /// Timeout for general operations, in milliseconds.
    pub general_timeout_ms: Option<u64>,
    /// Interval between connection checks, in milliseconds.
    pub connection_check_interval_ms: Option<u64>,
    /// Timeout for channel operations, in milliseconds.
    pub channel_timeout_ms: Option<u64>,
    /// Buffer size of the command channels.
    pub command_buffer_size: Option<usize>,
    /// Buffer size of the gossip event channel.
    pub gossip_event_buffer_size: Option<usize>,
    /// A size for the gossip event channel that overrides the one above.
    pub gossip_channel_size: Option<usize>,
    /// Buffer size of the gossip command channel.
    pub gossip_command_buffer_size: Option<usize>,
    /// Buffer size of the request-response event channel.
    pub req_resp_event_buffer_size: Option<usize>,
    /// Oldest age of an accepted envelope, in seconds.
    pub envelope_max_age_secs: Option<u64>,
    /// Lead of an envelope's date over our clock, in seconds.
    pub max_clock_skew_secs: Option<u64>,
}

/// The settings a node runs with: each option, or its default.
#[derive(Debug, Clone, Copy, PartialEq, Eq)]
pub struct NodeSettings {
    /// Retries when dialing an address at startup.
    pub max_retries: usize,
    /// Pause between dial attempts, in milliseconds.
    pub dial_timeout_ms: u64,
    /// Timeout for general operations, in milliseconds.
    pub general_timeout_ms: u64,
    /// Interval between connection checks, in milliseconds.
    pub connection_check_interval_ms: u64,
    /// Timeout for channel operations, in milliseconds.
    pub channel_timeout_ms: u64,
    /// Buffer size of the command channels.
    pub command_buffer_size: usize,
    /// Buffer size of the gossip event channel.
    pub gossip_event_buffer_size: usize,
    /// Buffer size of the gossip command channel.
    pub gossip_command_buffer_size: usize,
    /// Buffer size of the request-response event channel.
    pub req_resp_event_buffer_size: usize,
    /// Oldest age of an accepted envelope, in seconds.
    pub envelope_max_age_secs: u64,
    /// Lead of an envelope's date over our clock, in seconds.
    pub max_clock_skew_secs: u64,
}

/// `o`'s value, or `d` when it has none.
pub open spec fn or_default<T>(o: Option<T>, d: T) -> T {
    match o {
        Some(v) => v,
        None => d,
    }
}

impl NodeSettings {
    /// The settings for `options`: each given option, else its default; the
    /// gossip event channel takes the overriding size when one is given.
    pub fn resolve(options: &NodeOptions) -> (s: NodeSettings)
        ensures
            s.max_retries == or_default(options.max_retries, DEFAULT_MAX_RETRIES),
            s.dial_timeout_ms == or_default(options.dial_timeout_ms, DEFAULT_DIAL_TIMEOUT_MS),
            s.general_timeout_ms == or_default(
                options.general_timeout_ms,
                DEFAULT_GENERAL_TIMEOUT_MS,
            ),
            s.connection_check_interval_ms == or_default(
                options.connection_check_interval_ms,
                DEFAULT_CONNECTION_CHECK_INTERVAL_MS,
            ),
            s.channel_timeout_ms == or_default(
                options.channel_timeout_ms,
                DEFAULT_CHANNEL_TIMEOUT_MS,
            ),
            s.command_buffer_size == or_default(
                options.command_buffer_size,
                DEFAULT_COMMAND_BUFFER_SIZE,
            ),
            s.gossip_event_buffer_size == or_default(
                options.gossip_channel_size,
                or_default(options.gossip_event_buffer_size, DEFAULT_GOSSIP_EVENT_BUFFER_SIZE),
            ),
            s.gossip_command_buffer_size == or_default(
                options.gossip_command_buffer_size,
                DEFAULT_GOSSIP_COMMAND_BUFFER_SIZE,
            ),
            s.req_resp_event_buffer_size == or_default(
                options.req_resp_event_buffer_size,
                DEFAULT_REQ_RESP_EVENT_BUFFER_SIZE,
            ),
            s.envelope_max_age_secs == or_default(
                options.envelope_max_age_secs,
                DEFAULT_ENVELOPE_MAX_AGE_SECS,
            ),
            s.max_clock_skew_secs == or_default(
                options.max_clock_skew_secs,
                DEFAULT_MAX_CLOCK_SKEW_SECS,
            ),
    {
        let gossip_events = match options.gossip_event_buffer_size {
            Some(v) => v,
            None => DEFAULT_GOSSIP_EVENT_BUFFER_SIZE,
        };
        NodeSettings {
            max_retries: match options.max_retries {
                Some(v) => v,
                None => DEFAULT_MAX_RETRIES,
            },
            dial_timeout_ms: match options.dial_timeout_ms {
                Some(v) => v,
                None => DEFAULT_DIAL_TIMEOUT_MS,
            },
            general_timeout_ms: match options.general_timeout_ms {
                Some(v) => v,
                None => DEFAULT_GENERAL_TIMEOUT_MS,
            },
            connection_check_interval_ms: match options.connection_check_interval_ms {
                Some(v) => v,
                None => DEFAULT_CONNECTION_CHECK_INTERVAL_MS,
            },
            channel_timeout_ms: match options.channel_timeout_ms {
                Some(v) => v,
                None => DEFAULT_CHANNEL_TIMEOUT_MS,
            },
            command_buffer_size: match options.command_buffer_size {
                Some(v) => v,
                None => DEFAULT_COMMAND_BUFFER_SIZE,
            },
            gossip_event_buffer_size: match options.gossip_channel_size {
                Some(v) => v,
                None => gossip_events,
            },
            gossip_command_buffer_size: match options.gossip_command_buffer_size {
                Some(v) => v,
                None => DEFAULT_GOSSIP_COMMAND_BUFFER_SIZE,
            },
            req_resp_event_buffer_size: match options.req_resp_event_buffer_size {
                Some(v) => v,
                None => DEFAULT_REQ_RESP_EVENT_BUFFER_SIZE,
            },
            envelope_max_age_secs: match options.envelope_max_age_secs {
                Some(v) => v,
                None => DEFAULT_ENVELOPE_MAX_AGE_SECS,
            },
            max_clock_skew_secs: match options.max_clock_skew_secs {
                Some(v) => v,
                None => DEFAULT_MAX_CLOCK_SKEW_SECS,
            },
        }
    }

    /// The clock envelopes are checked against at `now_secs`, with these
    /// settings' limits.
    pub fn envelope_clock(&self, now_secs: u64) -> (c: EnvelopeClock)
        ensures
            c.now_secs == now_secs,
            c.max_age_secs == self.envelope_max_age_secs,
            c.max_clock_skew_secs == self.max_clock_skew_secs,
    {
        EnvelopeClock {
            now_secs,
            max_age_secs: self.envelope_max_age_secs,
            max_clock_skew_secs: self.max_clock_skew_secs,
        }
    }
}

/// The attempts to dial one address at startup: after each failure the dial
/// is retried until more than `max_retries` attempts have failed.
#[derive(Debug, Clone, Copy, PartialEq, Eq)]
pub struct DialAttempts {
    /// Failed attempts so far.
    pub failures: usize,
    /// Retries allowed after the first attempt.
    pub max_retries: usize,
}

impl DialAttempts {
    /// No attempt has failed yet.
    pub fn new(max_retries: usize) -> (a: Self)
        ensures
            a.failures == 0,
            a.max_retries == max_retries,
    {
        DialAttempts { failures: 0, max_retries }
    }

    /// Records a failed attempt; returns whether to try again. The count
    /// stops at `usize::MAX`.
    pub fn record_failure(&mut self) -> (retry: bool)
        ensures
            final(self).max_retries == old(self).max_retries,
            final(self).failures == (if old(self).failures < usize::MAX {
                old(self).failures + 1
            } else {
                old(self).failures as int
            }),
            retry <==> final(self).failures <= final(self).max_retries,
    {
        if self.failures < usize::MAX {
            self.failures = self.failures + 1;
        }
        self.failures <= self.max_retries
    }
}

/// Progress of establishing the configured connections: the addresses not
/// yet reached by a connection we dialed, and the subscriptions seen.
pub struct ConnectionProgress {
    pending: ByteKeyMap<()>,
    subscriptions: u64,
}

impl ConnectionProgress {
    /// The table is well formed.
    pub closed spec fn wf(self) -> bool {
        self.pending.wf()
    }

    /// The addresses still waiting for a connection.
    pub closed spec fn pending_addresses(self) -> Set<Seq<u8>> {
        self.pending.view().dom()
    }

    /// The subscriptions seen.
    pub closed spec fn subscription_count(self) -> u64 {
        self.subscriptions
    }

    /// Waits for a connection to each of `addresses`.
    pub fn new(addresses: &Vec<Vec<u8>>) -> (p: Self)
        ensures
            p.wf(),
            p.subscription_count() == 0,
            forall|a: Seq<u8>|
                #[trigger] p.pending_addresses().contains(a) <==> exists|i: int|
                    0 <= i < addresses@.len() && addresses@[i]@ == a,
    {
        let mut pending: ByteKeyMap<()> = ByteKeyMap::new();
        let n = addresses.len();
        let mut i: usize = 0;
        while i < n
            invariant
                n == addresses@.len(),
                i <= n,
                pending.wf(),
                forall|a: Seq<u8>|
                    #[trigger] pending.view().dom().contains(a) <==> exists|j: int|
                        0 <= j < i && addresses@[j]@ == a,
            decreases n - i,
        {
            pending.insert(addresses[i].clone(), ());
            i = i + 1;
            assert forall|a: Seq<u8>| #[trigger] pending.view().dom().contains(a) implies exists|
                j: int,
            | 0 <= j < i && addresses@[j]@ == a by {
                if a == addresses@[i - 1]@ {
                    assert(addresses@[i - 1]@ == a);
                }
            }
        }
        ConnectionProgress { pending, subscriptions: 0 }
    }

    /// A connection we dialed to `address` was established.
    pub fn on_dialer_connected(&mut self, address: &[u8])
        requires
            old(self).wf(),
        ensures
            final(self).wf(),
            final(self).pending_addresses() == old(self).pending_addresses().remove(address@),
            final(self).subscription_count() == old(self).subscription_count(),
    {
        self.pending.remove(address);
        assert(self.pending_addresses() =~= old(self).pending_addresses().remove(address@));
    }

    /// A peer subscribed to our topic; the count stops at `u64::MAX`.
    pub fn on_subscribed(&mut self)
        requires
            old(self).wf(),
        ensures
            final(self).wf(),
            final(self).pending_addresses() == old(self).pending_addresses(),
            final(self).subscription_count() == (if old(self).subscription_count() < u64::MAX {
                old(self).subscription_count() + 1
            } else {
                old(self).subscription_count() as int
            }),
    {
        if self.subscriptions < u64::MAX {
            self.subscriptions = self.subscriptions + 1;
        }
    }

    /// The subscriptions seen.
    pub fn subscriptions(&self) -> (n: u64)
        ensures
            n == self.subscription_count(),
    {
        self.subscriptions
    }

    /// Whether every configured address has been reached.
    pub fn is_complete(&self) -> (r: bool)
        requires
            self.wf(),
        ensures
            r <==> self.pending_addresses() == Set::<Seq<u8>>::empty(),
    {
        let r = self.pending.is_empty();
        proof {
            if r {
                assert(self.pending.view().dom() =~= Set::<Seq<u8>>::empty());
            } else if self.pending.view().dom() == Set::<Seq<u8>>::empty() {
                assert(self.pending.view() =~= Map::<Seq<u8>, ()>::empty());
            }
        }
        r
    }
}

// ---------------------------------------------------------------------------
// Queries.
// ---------------------------------------------------------------------------

/// The application key of a peer, when setup with it has happened.
pub open spec fn app_key_lookup(app_key_of: Map<Seq<u8>, Seq<u8>>) -> spec_fn(Seq<u8>) -> Option<
    Seq<u8>,
> {
    |p: Seq<u8>|
        if app_key_of.contains_key(p) {
            Some(app_key_of[p])
        } else {
            None
        }
}

/// The application keys of the connected peers `peers` (transport ids), in
/// order, skipping peers with which setup has not happened.
pub fn connected_app_keys(setup: &SetupBehaviour, peers: &Vec<Vec<u8>>) -> (r: Vec<Vec<u8>>)
    requires
        setup.wf(),
    ensures
        r@.map_values(|k: Vec<u8>| k@) == peers@.map_values(|p: Vec<u8>| p@).filter_map(
            app_key_lookup(setup.app_key_of()),
        ),
{
    let ghost all = peers@.map_values(|p: Vec<u8>| p@);
    let ghost f = app_key_lookup(setup.app_key_of());
    let mut r: Vec<Vec<u8>> = Vec::new();
    let n = peers.len();
    let mut i: usize = 0;
    while i < n
        invariant
            n == peers@.len(),
            all == peers@.map_values(|p: Vec<u8>| p@),
            f == app_key_lookup(setup.app_key_of()),
            setup.wf(),
            i <= n,
            r@.map_values(|k: Vec<u8>| k@) == all.take(i as int).filter_map(f),
        decreases n - i,
    {
        proof {
            all.lemma_filter_map_take_succ(f, i as int);
        }
        let ghost before = r@;
        match setup.get_app_public_key_by_transport_id(peers[i].as_slice()) {
            Some(k) => {
                r.push(k);
                assert(r@ == before.push(k));
                assert(r@.map_values(|k: Vec<u8>| k@) =~= before.map_values(|k: Vec<u8>| k@).push(
                    k@,
                ));
            },
            None => {},
        }
        i = i + 1;
    }
    assert(all.take(n as int) =~= all);
    r
}

/// Where a request-response command goes.
#[derive(Debug, Clone, PartialEq, Eq)]
pub enum RequestRoute {
    /// Sent to the peer with this transport id, which is connected.
    Send { transport_id: Vec<u8> },
    /// The peer with this transport id did setup but is not connected:
    /// nothing is sent.
    NotConnected { transport_id: Vec<u8> },
    /// No setup happened with a peer of that key: nothing is sent.
    NoSetup,
}

/// Whether `id` is among `peers`.
pub open spec fn among(peers: Seq<Vec<u8>>, id: Seq<u8>) -> bool {
    exists|i: int| 0 <= i < peers.len() && #[trigger] peers[i]@ == id
}

/// Where a request-response command to the peer whose application key is
/// `target_app_key` goes, with `connected` the transport ids of the
/// connected peers: to the transport id that did setup with that key, when
/// that peer is connected; otherwise nowhere, saying why.
pub fn request_route(setup: &SetupBehaviour, target_app_key: &[u8], connected: &Vec<Vec<u8>>) -> (r:
    RequestRoute)
    requires
        setup.wf(),
    ensures
        !setup.transport_id_of().contains_key(target_app_key@) ==> r == RequestRoute::NoSetup,
        setup.transport_id_of().contains_key(target_app_key@) ==> ({
            let id = setup.transport_id_of()[target_app_key@];
            if among(connected@, id) {
                r matches RequestRoute::Send { transport_id } && transport_id@ == id
            } else {
                r matches RequestRoute::NotConnected { transport_id } && transport_id@ == id
            }
        }),
{
    let id = match setup.get_transport_id_by_application_key(target_app_key) {
        None => {
            return RequestRoute::NoSetup;
        },
        Some(id) => id,
    };
    let n = connected.len();
    let mut i: usize = 0;
    while i < n
        invariant
            n == connected@.len(),
            i <= n,
            setup.transport_id_of().contains_key(target_app_key@),
            id@ == setup.transport_id_of()[target_app_key@],
            forall|j: int| 0 <= j < i ==> #[trigger] connected@[j]@ != id@,
        decreases n - i,
    {
        if bytes_eq(connected[i].as_slice(), id.as_slice()) {
            assert(connected@[i as int]@ == id@);
            return RequestRoute::Send { transport_id: id };
        }
        i = i + 1;
    }
    RequestRoute::NotConnected { transport_id: id }
}

} // verus!
