//! Penalties on peers: what each penalty does, and the record of the mutes
//! and bans in force, keyed by application public key.

use crate::p2p::commands::UnpenaltyType;
use crate::p2p::keyed::ByteKeyMap;
use vstd::prelude::*;

verus! {

/// A penalty for a peer. Durations are in seconds.
#[derive(Debug, Clone, Copy, PartialEq, Eq)]
pub enum PenaltyType {
    /// No penalty.
    Ignore,
    /// Ignore the peer's gossip for a while.
    MuteGossip(u64),
    /// Ignore the peer's requests and responses for a while.
    MuteReqresp(u64),
    /// Both mutes for a while.
    MuteBoth(u64),
    /// Ban the peer for a while, or for the default ban period.
    Ban(Option<u64>),
}

/// What a penalty does: until when each mute or the ban holds (seconds since
/// the Unix epoch), and whether the peer is to be disconnected.
#[derive(Debug, Clone, Copy, PartialEq, Eq)]
pub struct PenaltyAction {
    /// End of the gossip mute, if one is set.
    pub mute_gossip_until: Option<u64>,
    /// End of the request-response mute, if one is set.
    pub mute_req_resp_until: Option<u64>,
    /// End of the ban, if one is set.
    pub ban_until: Option<u64>,
    /// Whether the peer is to be disconnected.
    pub disconnect: bool,
}

/// Every end time the penalty computes fits in a `u64`.
pub open spec fn penalty_fits(p: PenaltyType, now_secs: u64, default_ban_secs: u64) -> bool {
    match p {
        PenaltyType::Ignore => true,
        PenaltyType::MuteGossip(d) => now_secs + d <= u64::MAX,
        PenaltyType::MuteReqresp(d) => now_secs + d <= u64::MAX,
        PenaltyType::MuteBoth(d) => now_secs + d <= u64::MAX,
        PenaltyType::Ban(Some(d)) => now_secs + d <= u64::MAX,
        PenaltyType::Ban(None) => now_secs + default_ban_secs <= u64::MAX,
    }
}

/// What penalty `p` does at `now_secs`: a mute holds its protocol(s) until
/// `now + duration`; a ban holds until `now +` its duration, or the default
/// ban period, and disconnects the peer.
pub open spec fn spec_penalty_action(
    p: PenaltyType,
    now_secs: u64,
    default_ban_secs: u64,
) -> PenaltyAction {
    let none = PenaltyAction {
        mute_gossip_until: None,
        mute_req_resp_until: None,
        ban_until: None,
        disconnect: false,
    };
    match p {
        PenaltyType::Ignore => none,
        PenaltyType::MuteGossip(d) => PenaltyAction {
            mute_gossip_until: Some((now_secs + d) as u64),
            ..none
        },
        PenaltyType::MuteReqresp(d) => PenaltyAction {
            mute_req_resp_until: Some((now_secs + d) as u64),
            ..none
        },
        PenaltyType::MuteBoth(d) => PenaltyAction {
            mute_gossip_until: Some((now_secs + d) as u64),
            mute_req_resp_until: Some((now_secs + d) as u64),
            ..none
        },
        PenaltyType::Ban(d) => PenaltyAction {
            ban_until: Some(
                (now_secs + match d {
                    Some(d) => d,
                    None => default_ban_secs,
                }) as u64,
            ),
            disconnect: true,
            ..none
        },
    }
}

/// `a` does what the penalty `p` names, counted from `now`: a mute ends
/// `d` seconds after `now` for its protocol(s) and leaves the rest alone; a
/// ban ends its duration (or `default_ban_secs`) after `now` and disconnects;
/// no penalty does nothing.
pub open spec fn penalty_ends_follow_durations(
    p: PenaltyType,
    now: u64,
    default_ban_secs: u64,
    a: PenaltyAction,
) -> bool {
    &&& p matches PenaltyType::MuteGossip(d) ==> (a.mute_gossip_until matches Some(end) && end
        == now + d) && a.mute_req_resp_until is None && a.ban_until is None && !a.disconnect
    &&& p matches PenaltyType::MuteReqresp(d) ==> (a.mute_req_resp_until matches Some(end) && end
        == now + d) && a.mute_gossip_until is None && a.ban_until is None && !a.disconnect
    &&& p matches PenaltyType::MuteBoth(d) ==> (a.mute_gossip_until matches Some(end) && end == now
        + d) && (a.mute_req_resp_until matches Some(end) && end == now + d) && a.ban_until is None
        && !a.disconnect
    &&& p matches PenaltyType::Ban(Some(d)) ==> (a.ban_until matches Some(end) && end == now + d)
        && a.disconnect && a.mute_gossip_until is None && a.mute_req_resp_until is None
    &&& p == PenaltyType::Ban(None) ==> (a.ban_until matches Some(end) && end == now
        + default_ban_secs) && a.disconnect && a.mute_gossip_until is None
        && a.mute_req_resp_until is None
    &&& p == PenaltyType::Ignore ==> a.mute_gossip_until is None && a.mute_req_resp_until is None
        && a.ban_until is None && !a.disconnect
}

/// Law: every end time a penalty sets is `now` plus its duration, and a
/// penalty touches only the protocols it names.
pub proof fn lemma_penalty_ends_after_its_duration(p: PenaltyType, now: u64, default_ban_secs: u64)
    requires
        penalty_fits(p, now, default_ban_secs),
    ensures
        penalty_ends_follow_durations(
            p,
            now,
            default_ban_secs,
            spec_penalty_action(p, now, default_ban_secs),
        ),
{
}

/// What penalty `p` does at `now_secs`, with `default_ban_secs` for a ban
/// without a duration.
pub fn penalty_action(p: PenaltyType, now_secs: u64, default_ban_secs: u64) -> (a: PenaltyAction)
    requires
        penalty_fits(p, now_secs, default_ban_secs),
    ensures
        a == spec_penalty_action(p, now_secs, default_ban_secs),
        penalty_ends_follow_durations(p, now_secs, default_ban_secs, a),
{
    let none = PenaltyAction {
        mute_gossip_until: None,
        mute_req_resp_until: None,
        ban_until: None,
        disconnect: false,
    };
    match p {
        PenaltyType::Ignore => none,
        PenaltyType::MuteGossip(d) => PenaltyAction { mute_gossip_until: Some(now_secs + d), ..none },
        PenaltyType::MuteReqresp(d) => PenaltyAction {
            mute_req_resp_until: Some(now_secs + d),
            ..none
        },
        PenaltyType::MuteBoth(d) => PenaltyAction {
            mute_gossip_until: Some(now_secs + d),
            mute_req_resp_until: Some(now_secs + d),
            ..none
        },
        PenaltyType::Ban(d) => {
            let period = match d {
                Some(d) => d,
                None => default_ban_secs,
            };
            PenaltyAction { ban_until: Some(now_secs + period), disconnect: true, ..none }
        },
    }
}

/// The mutes and bans in force.
pub struct PenaltyPeerStorage {
    gossip_mutes: ByteKeyMap<u64>,
    req_resp_mutes: ByteKeyMap<u64>,
    bans: ByteKeyMap<u64>,
}

/// `m`'s end time for `key` is after `now`.
pub open spec fn holds_at(m: Map<Seq<u8>, u64>, key: Seq<u8>, now: u64) -> bool {
    m.contains_key(key) && m[key] > now
}

impl PenaltyPeerStorage {
    /// The tables are well formed.
    pub closed spec fn wf(self) -> bool {
        &&& self.gossip_mutes.wf()
        &&& self.req_resp_mutes.wf()
        &&& self.bans.wf()
    }

    /// End of each peer's gossip mute.
    pub closed spec fn gossip_muted_until(self) -> Map<Seq<u8>, u64> {
        self.gossip_mutes.view()
    }

    /// End of each peer's request-response mute.
    pub closed spec fn req_resp_muted_until(self) -> Map<Seq<u8>, u64> {
        self.req_resp_mutes.view()
    }

    /// End of each peer's ban.
    pub closed spec fn banned_until(self) -> Map<Seq<u8>, u64> {
        self.bans.view()
    }

    /// No penalty in force.
    pub fn new() -> (s: Self)
        ensures
            s.wf(),
            s.gossip_muted_until() == Map::<Seq<u8>, u64>::empty(),
            s.req_resp_muted_until() == Map::<Seq<u8>, u64>::empty(),
            s.banned_until() == Map::<Seq<u8>, u64>::empty(),
    {
        PenaltyPeerStorage {
            gossip_mutes: ByteKeyMap::new(),
            req_resp_mutes: ByteKeyMap::new(),
            bans: ByteKeyMap::new(),
        }
    }

    /// Records `action` for the peer `key`: each end time it sets replaces
    /// the peer's previous one; the others stay.
    pub fn apply(&mut self, key: &[u8], action: &PenaltyAction)
        requires
            old(self).wf(),
        ensures
            final(self).wf(),
            final(self).gossip_muted_until() == (match action.mute_gossip_until {
                Some(t) => old(self).gossip_muted_until().insert(key@, t),
                None => old(self).gossip_muted_until(),
            }),
            final(self).req_resp_muted_until() == (match action.mute_req_resp_until {
                Some(t) => old(self).req_resp_muted_until().insert(key@, t),
                None => old(self).req_resp_muted_until(),
            }),
            final(self).banned_until() == (match action.ban_until {
                Some(t) => old(self).banned_until().insert(key@, t),
                None => old(self).banned_until(),
            }),
    {
        if let Some(t) = action.mute_gossip_until {
            self.gossip_mutes.insert(vstd::slice::slice_to_vec(key), t);
        }
        if let Some(t) = action.mute_req_resp_until {
            self.req_resp_mutes.insert(vstd::slice::slice_to_vec(key), t);
        }
        if let Some(t) = action.ban_until {
            self.bans.insert(vstd::slice::slice_to_vec(key), t);
        }
    }

    /// Lifts a penalty from the peer `key`, as `u` says; the rest stays.
    pub fn lift(&mut self, key: &[u8], u: UnpenaltyType)
        requires
            old(self).wf(),
        ensures
            final(self).wf(),
            final(self).banned_until() == (if u is Unban {
                old(self).banned_until().remove(key@)
            } else {
                old(self).banned_until()
            }),
            final(self).gossip_muted_until() == (if u is UnmuteGossipsub || u is UnmuteBoth {
                old(self).gossip_muted_until().remove(key@)
            } else {
                old(self).gossip_muted_until()
            }),
            final(self).req_resp_muted_until() == (if u is UnmuteRequestResponse
                || u is UnmuteBoth {
                old(self).req_resp_muted_until().remove(key@)
            } else {
                old(self).req_resp_muted_until()
            }),
    {
        match u {
            UnpenaltyType::Unban => {
                self.bans.remove(key);
            },
            UnpenaltyType::UnmuteGossipsub => {
                self.gossip_mutes.remove(key);
            },
            UnpenaltyType::UnmuteRequestResponse => {
                self.req_resp_mutes.remove(key);
            },
            UnpenaltyType::UnmuteBoth => {
                self.gossip_mutes.remove(key);
                self.req_resp_mutes.remove(key);
            },
        }
    }

    /// Whether the peer `key` is muted for gossip at `now_secs`.
    pub fn is_gossip_muted(&self, key: &[u8], now_secs: u64) -> (r: bool)
        requires
            self.wf(),
        ensures
            r == holds_at(self.gossip_muted_until(), key@, now_secs),
    {
        match self.gossip_mutes.get(key) {
            Some(t) => *t > now_secs,
            None => false,
        }
    }

    /// Whether the peer `key` is muted for requests and responses at
    /// `now_secs`.
    pub fn is_req_resp_muted(&self, key: &[u8], now_secs: u64) -> (r: bool)
        requires
            self.wf(),
        ensures
            r == holds_at(self.req_resp_muted_until(), key@, now_secs),
    {
        match self.req_resp_mutes.get(key) {
            Some(t) => *t > now_secs,
            None => false,
        }
    }

    /// Whether the peer `key` is banned at `now_secs`.
    pub fn is_banned(&self, key: &[u8], now_secs: u64) -> (r: bool)
        requires
            self.wf(),
        ensures
            r == holds_at(self.banned_until(), key@, now_secs),
    {
        match self.bans.get(key) {
            Some(t) => *t > now_secs,
            None => false,
        }
    }
}

/// Law: a penalty holds from when it is applied until its end: right after
/// recording the action of `p` at `now`, the peer is muted or banned, for the
/// protocols `p` names, at every time from `now` until just before the end;
/// for a mute of `d` seconds, at every `t` with `now <= t < now + d`.
pub proof fn lemma_penalty_holds_until_its_end(
    p: PenaltyType,
    now: u64,
    default_ban_secs: u64,
    before: Map<Seq<u8>, u64>,
    key: Seq<u8>,
    t: u64,
)
    requires
        penalty_fits(p, now, default_ban_secs),
        now <= t,
    ensures
        ({
            let a = spec_penalty_action(p, now, default_ban_secs);
            &&& a.mute_gossip_until matches Some(end) ==> (t < end <==> holds_at(
                before.insert(key, end),
                key,
                t,
            ))
            &&& a.mute_req_resp_until matches Some(end) ==> (t < end <==> holds_at(
                before.insert(key, end),
                key,
                t,
            ))
            &&& a.ban_until matches Some(end) ==> (t < end <==> holds_at(
                before.insert(key, end),
                key,
                t,
            )) && a.disconnect
            &&& p matches PenaltyType::MuteReqresp(d) ==> (t < now + d ==> (a.mute_req_resp_until matches Some(
                end,
            ) && holds_at(before.insert(key, end), key, t)))
            &&& p matches PenaltyType::MuteBoth(d) ==> (t < now + d ==> (a.mute_req_resp_until matches Some(
                end,
            ) && holds_at(before.insert(key, end), key, t)))
            &&& p matches PenaltyType::MuteGossip(d) ==> (t < now + d ==> (a.mute_gossip_until matches Some(
                end,
            ) && holds_at(before.insert(key, end), key, t)))
            &&& p matches PenaltyType::MuteBoth(d) ==> (t < now + d ==> (a.mute_gossip_until matches Some(
                end,
            ) && holds_at(before.insert(key, end), key, t)))
            &&& (p is Ban) <==> a.ban_until is Some
            &&& (p is MuteGossip || p is MuteBoth) <==> a.mute_gossip_until is Some
            &&& (p is MuteReqresp || p is MuteBoth) <==> a.mute_req_resp_until is Some
        }),
{
}

} // verus!
