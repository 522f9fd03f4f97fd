//! The keys under which the storage layer keeps its entries.
//!
//! A key is a kind's prefix, the operator's key as displayed, and, for most
//! kinds, `_` and the entry's id as displayed: `sigs-{operator}_{session}`.

use crate::p2p::text::{spec_hex_digit, spec_hex_lower, string_push_str};
use vstd::prelude::*;

verus! {

/// The kinds of entries stored per operator and id.
#[derive(Debug, Clone, Copy, PartialEq, Eq)]
pub enum EntryKind {
    /// Partial signatures, per session: `sigs-`.
    PartialSignatures,
    /// Public nonces, per session: `nonces-`.
    PubNonces,
    /// Deposit setups, per scope: `setup-`.
    DepositSetup,
    /// Stake chain information, per stake chain: `stake-chain-`.
    StakeChain,
}

impl EntryKind {
    /// The kind's prefix.
    pub open spec fn prefix(self) -> Seq<char> {
        match self {
            EntryKind::PartialSignatures => seq!['s', 'i', 'g', 's', '-'],
            EntryKind::PubNonces => seq!['n', 'o', 'n', 'c', 'e', 's', '-'],
            EntryKind::DepositSetup => seq!['s', 'e', 't', 'u', 'p', '-'],
            EntryKind::StakeChain => seq![
                's',
                't',
                'a',
                'k',
                'e',
                '-',
                'c',
                'h',
                'a',
                'i',
                'n',
                '-',
            ],
        }
    }

    /// The kind's prefix.
    pub fn prefix_str(self) -> (p: &'static str)
        ensures
            p@ == self.prefix(),
    {
        match self {
            EntryKind::PartialSignatures => {
                proof {
                    reveal_strlit("sigs-");
                }
                "sigs-"
            },
            EntryKind::PubNonces => {
                proof {
                    reveal_strlit("nonces-");
                }
                "nonces-"
            },
            EntryKind::DepositSetup => {
                proof {
                    reveal_strlit("setup-");
                }
                "setup-"
            },
            EntryKind::StakeChain => {
                proof {
                    reveal_strlit("stake-chain-");
                }
                "stake-chain-"
            },
        }
    }
}

/// The key of the entry of `kind` for `operator` and `id`.
pub open spec fn spec_entry_key(kind: EntryKind, operator: Seq<char>, id: Seq<char>) -> Seq<char> {
    kind.prefix() + operator + seq!['_'] + id
}

/// The key of the entry of `kind` for the operator displayed as `operator`
/// and the id displayed as `id`.
pub fn entry_key(kind: EntryKind, operator: &str, id: &str) -> (s: String)
    ensures
        s@ == spec_entry_key(kind, operator@, id@),
{
    let mut s = String::new();
    string_push_str(&mut s, kind.prefix_str());
    string_push_str(&mut s, operator);
    proof {
        reveal_strlit("_");
    }
    string_push_str(&mut s, "_");
    string_push_str(&mut s, id);
    assert(s@ =~= spec_entry_key(kind, operator@, id@));
    s
}

/// The keys of `kind` for each pair of operator and id, in order.
pub fn entry_keys(kind: EntryKind, pairs: &Vec<(String, String)>) -> (keys: Vec<String>)
    ensures
        keys@.len() == pairs@.len(),
        forall|i: int|
            0 <= i < pairs@.len() ==> #[trigger] keys@[i]@ == spec_entry_key(
                kind,
                pairs@[i].0@,
                pairs@[i].1@,
            ),
{
    let mut keys: Vec<String> = Vec::new();
    let n = pairs.len();
    let mut i: usize = 0;
    while i < n
        invariant
            n == pairs@.len(),
            i <= n,
            keys@.len() == i,
            forall|j: int|
                0 <= j < i ==> #[trigger] keys@[j]@ == spec_entry_key(
                    kind,
                    pairs@[j].0@,
                    pairs@[j].1@,
                ),
        decreases n - i,
    {
        let k = entry_key(kind, pairs[i].0.as_str(), pairs[i].1.as_str());
        keys.push(k);
        i = i + 1;
    }
    keys
}

/// The key under which the peer of the operator displayed as `operator` is
/// stored: `signers=>peerid-{operator}`.
pub fn signer_peer_key(operator: &str) -> (s: String)
    ensures
        s@ == "signers=>peerid-"@ + operator@,
{
    let mut s = String::new();
    string_push_str(&mut s, "signers=>peerid-");
    string_push_str(&mut s, operator);
    s
}

/// The key of the genesis information of the operator displayed as
/// `operator`: `genesis-{operator}`.
pub fn genesis_key(operator: &str) -> (s: String)
    ensures
        s@ == "genesis-"@ + operator@,
{
    let mut s = String::new();
    string_push_str(&mut s, "genesis-");
    string_push_str(&mut s, operator);
    s
}

/// `text` has no `_` in it.
pub open spec fn no_underscore(text: Seq<char>) -> bool {
    forall|i: int| 0 <= i < text.len() ==> text[i] != '_'
}

/// Law: entry keys do not collide. Two entries share a key only when they
/// are of the same kind, for the same operator and the same id, provided
/// operators display without `_` (as the hex display of a key does).
pub proof fn lemma_entry_keys_distinct(
    k1: EntryKind,
    o1: Seq<char>,
    i1: Seq<char>,
    k2: EntryKind,
    o2: Seq<char>,
    i2: Seq<char>,
)
    requires
        no_underscore(o1),
        no_underscore(o2),
        spec_entry_key(k1, o1, i1) == spec_entry_key(k2, o2, i2),
    ensures
        k1 == k2,
        o1 == o2,
        i1 == i2,
{
    let a = spec_entry_key(k1, o1, i1);
    let b = spec_entry_key(k2, o2, i2);
    // The first two characters tell the kind apart.
    assert(a[0] == k1.prefix()[0] && a[1] == k1.prefix()[1]);
    assert(b[0] == k2.prefix()[0] && b[1] == k2.prefix()[1]);
    assert(k1 == k2);
    let p = k1.prefix();
    let l: int = p.len() as int;
    // The first `_` after the prefix ends the operator.
    if o1.len() < o2.len() {
        assert(a[l + o1.len() as int] == '_');
        assert(b[l + o1.len() as int] == o2[o1.len() as int]);
        assert(false);
    }
    if o2.len() < o1.len() {
        assert(b[l + o2.len() as int] == '_');
        assert(a[l + o2.len() as int] == o1[o2.len() as int]);
        assert(false);
    }
    assert(o1.len() == o2.len());
    assert forall|j: int| 0 <= j < o1.len() implies o1[j] == o2[j] by {
        assert(a[l + j] == o1[j]);
        assert(b[l + j] == o2[j]);
    }
    assert(o1 =~= o2);
    assert(a.len() == l + o1.len() + 1 + i1.len());
    assert(b.len() == l + o2.len() + 1 + i2.len());
    assert(i1.len() == i2.len());
    assert forall|j: int| 0 <= j < i1.len() implies i1[j] == i2[j] by {
        assert(a[l + o1.len() + 1 + j] == i1[j]);
        assert(b[l + o2.len() + 1 + j] == i2[j]);
    }
    assert(i1 =~= i2);
}

/// Law: the hex display of a key has no `_`, so entry keys built from hex
/// displays of operator keys never collide.
pub proof fn lemma_hex_display_has_no_underscore(data: Seq<u8>)
    ensures
        no_underscore(spec_hex_lower(data)),
{
    let h = spec_hex_lower(data);
    assert forall|i: int| 0 <= i < h.len() implies h[i] != '_' by {
        let b = data[i / 2] as int;
        let n = if i % 2 == 0 { b / 16 } else { b % 16 };
        assert(0 <= n < 16);
        assert(h[i] == spec_hex_digit(n));
        if n < 10 {
            assert((48 + n) as char != '_');
        } else {
            assert((87 + n) as char != '_');
        }
    }
}

} // verus!
