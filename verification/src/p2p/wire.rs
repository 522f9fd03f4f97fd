//! Big-endian integer encodings and length-prefixed byte fields shared by the
//! wire formats of this crate.

use vstd::prelude::*;

verus! {

/// Big-endian bytes of a `u32`.
pub open spec fn spec_u32_be(x: u32) -> Seq<u8> {
    seq![(x >> 24u32) as u8, (x >> 16u32) as u8, (x >> 8u32) as u8, x as u8]
}

/// The `u32` whose big-endian bytes are the first four of `b`.
pub open spec fn spec_u32_from_be(b: Seq<u8>) -> u32 {
    ((b[0] as u32) << 24u32) | ((b[1] as u32) << 16u32) | ((b[2] as u32) << 8u32) | (b[3] as u32)
}

/// Big-endian bytes of a `u64`.
pub open spec fn spec_u64_be(x: u64) -> Seq<u8> {
    seq![
        (x >> 56u64) as u8,
        (x >> 48u64) as u8,
        (x >> 40u64) as u8,
        (x >> 32u64) as u8,
        (x >> 24u64) as u8,
        (x >> 16u64) as u8,
        (x >> 8u64) as u8,
        x as u8,
    ]
}

/// The `u64` whose big-endian bytes are the first eight of `b`.
pub open spec fn spec_u64_from_be(b: Seq<u8>) -> u64 {
    ((b[0] as u64) << 56u64) | ((b[1] as u64) << 48u64) | ((b[2] as u64) << 40u64) | ((
    b[3] as u64) << 32u64) | ((b[4] as u64) << 24u64) | ((b[5] as u64) << 16u64) | ((
    b[6] as u64) << 8u64) | (b[7] as u64)
}

/// A byte field as it travels on the wire: its length as a big-endian `u32`,
/// then its bytes. A length that does not fit in a `u32` is truncated, as the
/// `as u32` cast in the encoder does.
pub open spec fn spec_field(data: Seq<u8>) -> Seq<u8> {
    spec_u32_be(data.len() as u32) + data
}

/// Reading back the four bytes of a `u32` gives the `u32`.
pub proof fn lemma_u32_be_roundtrip(x: u32)
    ensures
        spec_u32_from_be(spec_u32_be(x)) == x,
        spec_u32_be(x).len() == 4,
{
    let b0 = (x >> 24u32) as u8;
    let b1 = (x >> 16u32) as u8;
    let b2 = (x >> 8u32) as u8;
    let b3 = x as u8;
    assert(((b0 as u32) << 24u32) | ((b1 as u32) << 16u32) | ((b2 as u32) << 8u32) | (b3 as u32)
        == x) by (bit_vector)
        requires
            b0 == (x >> 24u32) as u8,
            b1 == (x >> 16u32) as u8,
            b2 == (x >> 8u32) as u8,
            b3 == x as u8,
    ;
}

/// Reading back the eight bytes of a `u64` gives the `u64`.
pub proof fn lemma_u64_be_roundtrip(x: u64)
    ensures
        spec_u64_from_be(spec_u64_be(x)) == x,
        spec_u64_be(x).len() == 8,
{
    let b0 = (x >> 56u64) as u8;
    let b1 = (x >> 48u64) as u8;
    let b2 = (x >> 40u64) as u8;
    let b3 = (x >> 32u64) as u8;
    let b4 = (x >> 24u64) as u8;
    let b5 = (x >> 16u64) as u8;
    let b6 = (x >> 8u64) as u8;
    let b7 = x as u8;
    assert(((b0 as u64) << 56u64) | ((b1 as u64) << 48u64) | ((b2 as u64) << 40u64) | ((
    b3 as u64) << 32u64) | ((b4 as u64) << 24u64) | ((b5 as u64) << 16u64) | ((b6 as u64)
        << 8u64) | (b7 as u64) == x) by (bit_vector)
        requires
            b0 == (x >> 56u64) as u8,
            b1 == (x >> 48u64) as u8,
            b2 == (x >> 40u64) as u8,
            b3 == (x >> 32u64) as u8,
            b4 == (x >> 24u64) as u8,
            b5 == (x >> 16u64) as u8,
            b6 == (x >> 8u64) as u8,
            b7 == x as u8,
    ;
}

/// Appends the big-endian bytes of `x`.
pub fn push_u32_be(bytes: &mut Vec<u8>, x: u32)
    ensures
        final(bytes)@ == old(bytes)@ + spec_u32_be(x),
{
    bytes.push((x >> 24u32) as u8);
    bytes.push((x >> 16u32) as u8);
    bytes.push((x >> 8u32) as u8);
    bytes.push(x as u8);
    assert(bytes@ =~= old(bytes)@ + spec_u32_be(x));
}

/// Appends the big-endian bytes of `x`.
pub fn push_u64_be(bytes: &mut Vec<u8>, x: u64)
    ensures
        final(bytes)@ == old(bytes)@ + spec_u64_be(x),
{
    bytes.push((x >> 56u64) as u8);
    bytes.push((x >> 48u64) as u8);
    bytes.push((x >> 40u64) as u8);
    bytes.push((x >> 32u64) as u8);
    bytes.push((x >> 24u64) as u8);
    bytes.push((x >> 16u64) as u8);
    bytes.push((x >> 8u64) as u8);
    bytes.push(x as u8);
    assert(bytes@ =~= old(bytes)@ + spec_u64_be(x));
}

/// Appends every byte of `src`, in order.
pub fn push_all(bytes: &mut Vec<u8>, src: &[u8])
    ensures
        final(bytes)@ == old(bytes)@ + src@,
{
    let n = src.len();
    let mut i: usize = 0;
    while i < n
        invariant
            n == src@.len(),
            i <= n,
            bytes@ == old(bytes)@ + src@.subrange(0, i as int),
        decreases n - i,
    {
        bytes.push(src[i]);
        i = i + 1;
        assert(bytes@ =~= old(bytes)@ + src@.subrange(0, i as int));
    }
    assert(src@.subrange(0, n as int) =~= src@);
}

/// Appends `data` as a length-prefixed field.
pub fn push_field(bytes: &mut Vec<u8>, data: &[u8])
    ensures
        final(bytes)@ == old(bytes)@ + spec_field(data@),
{
    push_u32_be(bytes, data.len() as u32);
    push_all(bytes, data);
    assert(bytes@ =~= old(bytes)@ + spec_field(data@));
}

/// The big-endian `u32` stored at `data[at..at + 4]`.
pub fn read_u32_be(data: &[u8], at: usize) -> (x: u32)
    requires
        at + 4 <= data@.len(),
    ensures
        x == spec_u32_from_be(data@.subrange(at as int, at + 4)),
{
    ((data[at] as u32) << 24u32) | ((data[at + 1] as u32) << 16u32) | ((data[at + 2] as u32)
        << 8u32) | (data[at + 3] as u32)
}

/// The big-endian `u64` stored at `data[at..at + 8]`.
pub fn read_u64_be(data: &[u8], at: usize) -> (x: u64)
    requires
        at + 8 <= data@.len(),
    ensures
        x == spec_u64_from_be(data@.subrange(at as int, at + 8)),
{
    ((data[at] as u64) << 56u64) | ((data[at + 1] as u64) << 48u64) | ((data[at + 2] as u64)
        << 40u64) | ((data[at + 3] as u64) << 32u64) | ((data[at + 4] as u64) << 24u64) | ((
    data[at + 5] as u64) << 16u64) | ((data[at + 6] as u64) << 8u64) | (data[at + 7] as u64)
}

/// A copy of `data[start..end]`.
pub fn copy_range(data: &[u8], start: usize, end: usize) -> (out: Vec<u8>)
    requires
        start <= end <= data@.len(),
    ensures
        out@ == data@.subrange(start as int, end as int),
{
    let mut out: Vec<u8> = Vec::new();
    let mut i: usize = start;
    while i < end
        invariant
            start <= i <= end,
            end <= data@.len(),
            out@ == data@.subrange(start as int, i as int),
        decreases end - i,
    {
        out.push(data[i]);
        i = i + 1;
        assert(out@ =~= data@.subrange(start as int, i as int));
    }
    out
}

} // verus!
