//! Filtering of peers by application public key: an allow list and a ban
//! list behind one interface.

use crate::p2p::keyed::ByteKeyMap;
use vstd::prelude::*;

verus! {

/// Filtering: an interface for allow lists, ban lists and, later, scoring.
/// Keys are application public keys in libp2p's protobuf encoding.
pub trait Filtering {
    /// The filter's internal tables are well formed.
    spec fn filter_wf(&self) -> bool;

    /// Whether a connection from `app_pk` is allowed.
    spec fn respects(&self, app_pk: Seq<u8>) -> bool;

    /// Allows connections from `app_pk`; every other key keeps its standing.
    fn respect_app_pk_to_allow_connection(&mut self, app_pk: Vec<u8>)
        requires
            old(self).filter_wf(),
        ensures
            final(self).filter_wf(),
            final(self).respects(app_pk@),
            forall|k: Seq<u8>| k != app_pk@ ==> final(self).respects(k) == old(self).respects(k),
    ;

    /// Disallows connections from `app_pk`; every other key keeps its
    /// standing.
    fn disrespect_app_pk_to_disallow_connection(&mut self, app_pk: Vec<u8>)
        requires
            old(self).filter_wf(),
        ensures
            final(self).filter_wf(),
            !final(self).respects(app_pk@),
            forall|k: Seq<u8>| k != app_pk@ ==> final(self).respects(k) == old(self).respects(k),
    ;

    /// Whether a connection from `app_pk` is currently allowed.
    fn is_app_pk_respected_enough_to_connect(&self, app_pk: &[u8]) -> (r: bool)
        requires
            self.filter_wf(),
        ensures
            r == self.respects(app_pk@),
    ;
}

/// Builds the set of `keys`.
fn key_set(keys: Vec<Vec<u8>>) -> (m: ByteKeyMap<()>)
    ensures
        m.wf(),
        forall|k: Seq<u8>|
            #[trigger] m.view().contains_key(k) <==> exists|i: int|
                0 <= i < keys@.len() && keys@[i]@ == k,
{
    let mut m: ByteKeyMap<()> = ByteKeyMap::new();
    let n = keys.len();
    let mut i: usize = 0;
    while i < n
        invariant
            n == keys@.len(),
            i <= n,
            m.wf(),
            forall|k: Seq<u8>|
                #[trigger] m.view().contains_key(k) <==> exists|j: int|
                    0 <= j < i && keys@[j]@ == k,
        decreases n - i,
    {
        let key = keys[i].clone();
        assert(key@ == keys@[i as int]@);
        m.insert(key, ());
        i = i + 1;
        assert forall|k: Seq<u8>| #[trigger] m.view().contains_key(k) implies exists|j: int|
            0 <= j < i && keys@[j]@ == k by {
            if k == keys@[i - 1]@ {
                assert(keys@[i - 1]@ == k);
            }
        }
    }
    m
}

/// Allow list, aka whitelist: only listed keys may connect.
pub struct AllowList {
    app_pk_allowlist: ByteKeyMap<()>,
}

impl AllowList {
    /// The listed keys.
    pub closed spec fn listed(self, app_pk: Seq<u8>) -> bool {
        self.app_pk_allowlist.view().contains_key(app_pk)
    }

    /// An allow list holding exactly the predefined keys.
    pub fn new(pre_defined_allow_list: Vec<Vec<u8>>) -> (l: Self)
        ensures
            l.filter_wf(),
            forall|k: Seq<u8>|
                #[trigger] l.respects(k) <==> exists|i: int|
                    0 <= i < pre_defined_allow_list@.len() && pre_defined_allow_list@[i]@ == k,
    {
        AllowList { app_pk_allowlist: key_set(pre_defined_allow_list) }
    }
}

impl Filtering for AllowList {
    open spec fn filter_wf(&self) -> bool {
        self.app_pk_allowlist_wf()
    }

    /// A key may connect exactly when it is listed.
    open spec fn respects(&self, app_pk: Seq<u8>) -> bool {
        self.listed(app_pk)
    }

    fn respect_app_pk_to_allow_connection(&mut self, app_pk: Vec<u8>) {
        self.app_pk_allowlist.insert(app_pk, ());
    }

    fn disrespect_app_pk_to_disallow_connection(&mut self, app_pk: Vec<u8>) {
        self.app_pk_allowlist.remove(app_pk.as_slice());
    }

    fn is_app_pk_respected_enough_to_connect(&self, app_pk: &[u8]) -> (r: bool) {
        self.app_pk_allowlist.contains_key(app_pk)
    }
}

impl AllowList {
    /// The table is well formed.
    pub closed spec fn app_pk_allowlist_wf(self) -> bool {
        self.app_pk_allowlist.wf()
    }
}

/// Ban list, aka blacklist: every key may connect unless it is listed.
pub struct BanList {
    app_pk_banlist: ByteKeyMap<()>,
}

impl BanList {
    /// The listed keys.
    pub closed spec fn listed(self, app_pk: Seq<u8>) -> bool {
        self.app_pk_banlist.view().contains_key(app_pk)
    }

    /// The table is well formed.
    pub closed spec fn app_pk_banlist_wf(self) -> bool {
        self.app_pk_banlist.wf()
    }

    /// A ban list holding exactly the predefined keys.
    pub fn new(pre_defined_ban_list: Vec<Vec<u8>>) -> (l: Self)
        ensures
            l.filter_wf(),
            forall|k: Seq<u8>|
                #[trigger] l.respects(k) <==> !exists|i: int|
                    0 <= i < pre_defined_ban_list@.len() && pre_defined_ban_list@[i]@ == k,
    {
        BanList { app_pk_banlist: key_set(pre_defined_ban_list) }
    }
}

impl Filtering for BanList {
    open spec fn filter_wf(&self) -> bool {
        self.app_pk_banlist_wf()
    }

    /// A key may connect exactly when it is not listed.
    open spec fn respects(&self, app_pk: Seq<u8>) -> bool {
        !self.listed(app_pk)
    }

    /// To respect a key in a ban list, remove it from the list.
    fn respect_app_pk_to_allow_connection(&mut self, app_pk: Vec<u8>) {
        self.app_pk_banlist.remove(app_pk.as_slice());
    }

    /// To disrespect a key in a ban list, add it to the list.
    fn disrespect_app_pk_to_disallow_connection(&mut self, app_pk: Vec<u8>) {
        self.app_pk_banlist.insert(app_pk, ());
    }

    fn is_app_pk_respected_enough_to_connect(&self, app_pk: &[u8]) -> (r: bool) {
        !self.app_pk_banlist.contains_key(app_pk)
    }
}

/// One call on a filter: respect (`true`) or disrespect (`false`) a key.
pub type FilterOp = (bool, Seq<u8>);

/// `after` is `before` after the call `op`, as the calls' contracts say.
pub open spec fn filter_step<F: Filtering>(before: F, after: F, op: FilterOp) -> bool {
    &&& after.filter_wf()
    &&& after.respects(op.1) == op.0
    &&& forall|k: Seq<u8>| k != op.1 ==> after.respects(k) == before.respects(k)
}

/// The standing of `k` after the calls `ops`, starting from `initial`: the
/// last call about `k` decides, and with none `k` keeps its standing.
pub open spec fn standing_after(initial: bool, ops: Seq<FilterOp>, k: Seq<u8>) -> bool
    decreases ops.len(),
{
    if ops.len() == 0 {
        initial
    } else if ops.last().1 == k {
        ops.last().0
    } else {
        standing_after(initial, ops.drop_last(), k)
    }
}

/// Law: after any sequence of respect and disrespect calls, a key is
/// respected exactly when the last call about it respected it, or, with no
/// call about it, when it was respected at the start.
pub proof fn lemma_filter_calls_last_one_wins<F: Filtering>(
    states: Seq<F>,
    ops: Seq<FilterOp>,
    k: Seq<u8>,
)
    requires
        states.len() == ops.len() + 1,
        forall|i: int| 0 <= i < ops.len() ==> #[trigger] filter_step(states[i], states[i + 1], ops[i]),
    ensures
        states.last().respects(k) == standing_after(states[0].respects(k), ops, k),
    decreases ops.len(),
{
    if ops.len() > 0 {
        let n = ops.len() as int;
        let s2 = states.drop_last();
        let o2 = ops.drop_last();
        assert forall|i: int| 0 <= i < o2.len() implies #[trigger] filter_step(s2[i], s2[i + 1], o2[i]) by {
            assert(filter_step(states[i], states[i + 1], ops[i]));
        }
        lemma_filter_calls_last_one_wins(s2, o2, k);
        assert(filter_step(states[n - 1], states[n], ops[n - 1]));
        assert(s2.last() == states[n - 1]);
        assert(s2[0] == states[0]);
    }
}

/// Law, one call at a time: when each key's standing in `before` is what the
/// calls `ops` give from its standing `initial(k)`, then after one more call
/// `op` each key's standing is what `ops` followed by `op` give.
pub proof fn lemma_filter_call_extends_history<F: Filtering>(
    initial: spec_fn(Seq<u8>) -> bool,
    ops: Seq<FilterOp>,
    before: F,
    after: F,
    op: FilterOp,
)
    requires
        forall|k: Seq<u8>| #[trigger] before.respects(k) == standing_after(initial(k), ops, k),
        filter_step(before, after, op),
    ensures
        forall|k: Seq<u8>|
            #[trigger] after.respects(k) == standing_after(initial(k), ops.push(op), k),
{
    assert forall|k: Seq<u8>| #[trigger]
        after.respects(k) == standing_after(initial(k), ops.push(op), k) by {
        assert(ops.push(op).drop_last() =~= ops);
        assert(before.respects(k) == standing_after(initial(k), ops, k));
    }
}

} // verus!
