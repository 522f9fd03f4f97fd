//! Text renderings used by identifiers and error messages: lower-case hex of
//! bytes and decimal of unsigned integers.

use vstd::prelude::*;

verus! {

/// The lower-case hex digit for `n` (`n < 16`).
pub open spec fn spec_hex_digit(n: int) -> char {
    if n < 10 {
        (48 + n) as char
    } else {
        (87 + n) as char
    }
}

/// Lower-case hex of `data`: two digits per byte, high nibble first.
pub open spec fn spec_hex_lower(data: Seq<u8>) -> Seq<char> {
    Seq::new(
        2 * data.len(),
        |i: int|
            if i % 2 == 0 {
                spec_hex_digit(data[i / 2] as int / 16)
            } else {
                spec_hex_digit(data[i / 2] as int % 16)
            },
    )
}

/// Trusted: `String::push`, which appends one character.
#[verifier::external_body]
pub(crate) fn string_push(s: &mut String, c: char)
    ensures
        final(s)@ == old(s)@.push(c),
{
    s.push(c);
}

/// Trusted: `String::push_str`, which appends the characters of `t`.
#[verifier::external_body]
pub(crate) fn string_push_str(s: &mut String, t: &str)
    ensures
        final(s)@ == old(s)@ + t@,
{
    s.push_str(t);
}

/// The lower-case hex digit for `n`.
pub fn hex_digit(n: u8) -> (c: char)
    requires
        n < 16,
    ensures
        c == spec_hex_digit(n as int),
{
    if n < 10 {
        (48u8 + n) as char
    } else {
        (87u8 + n) as char
    }
}

/// Lower-case hex of `data`, two digits per byte.
pub fn to_hex_lower(data: &[u8]) -> (s: String)
    ensures
        s@ == spec_hex_lower(data@),
{
    let mut s = String::new();
    let n = data.len();
    let mut i: usize = 0;
    while i < n
        invariant
            n == data@.len(),
            i <= n,
            s@ =~= spec_hex_lower(data@.subrange(0, i as int)),
        decreases n - i,
    {
        let b = data[i];
        string_push(&mut s, hex_digit(b / 16));
        string_push(&mut s, hex_digit(b % 16));
        i = i + 1;
        assert(s@ =~= spec_hex_lower(data@.subrange(0, i as int))) by {
            let prev = data@.subrange(0, i - 1);
            let cur = data@.subrange(0, i as int);
            assert forall|j: int| 0 <= j < 2 * cur.len() implies #[trigger] s@[j]
                == spec_hex_lower(cur)[j] by {
                if j < 2 * prev.len() {
                    assert(cur[j / 2] == prev[j / 2]);
                }
            }
        }
    }
    assert(data@.subrange(0, n as int) =~= data@);
    s
}

/// Decimal digits of `n`, most significant first, no leading zeros ("0" for
/// zero).
pub open spec fn spec_decimal(n: nat) -> Seq<char>
    decreases n,
{
    if n < 10 {
        seq![(48 + n) as char]
    } else {
        spec_decimal(n / 10).push((48 + n % 10) as char)
    }
}

/// Decimal text of `n`, as `u64`'s `Display` writes it.
pub fn to_decimal(n: u64) -> (s: String)
    ensures
        s@ == spec_decimal(n as nat),
    decreases n,
{
    if n < 10 {
        let mut s = String::new();
        string_push(&mut s, (48u8 + n as u8) as char);
        assert(s@ =~= spec_decimal(n as nat));
        s
    } else {
        let mut s = to_decimal(n / 10);
        string_push(&mut s, (48u8 + (n % 10) as u8) as char);
        s
    }
}

} // verus!
