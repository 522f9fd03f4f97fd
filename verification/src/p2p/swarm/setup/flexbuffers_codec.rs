//! Length-prefixed framing of flexbuffers-encoded setup messages.
//!
//! A frame is the payload's length as a big-endian `u32`, then the payload.
//! Frames longer than [`MAX_FRAME_SIZE`] are refused before anything is
//! buffered or decoded, which keeps an unauthenticated peer from making us
//! allocate. The flexbuffers encoding of the payload is the caller's.

use crate::p2p::wire::{lemma_u32_be_roundtrip, spec_u32_be, spec_u32_from_be};
use ::bytes::{Buf, BufMut, BytesMut};
use std::marker::PhantomData;
use vstd::prelude::*;

verus! {

/// Maximum frame size for setup messages in bytes (1 MiB).
pub const MAX_FRAME_SIZE: usize = 1048576;

#[verifier::external_type_specification]
#[verifier::external_body]
pub struct ExBytesMut(::bytes::BytesMut);

/// The bytes a `BytesMut` buffer holds.
pub uninterp spec fn bytes_mut_contents(buf: BytesMut) -> Seq<u8>;

/// Trusted: the length of the buffer (`<[u8]>::len` through `Deref`).
#[verifier::external_body]
fn buf_len(buf: &BytesMut) -> (n: usize)
    ensures
        n == bytes_mut_contents(*buf).len(),
{
    buf.len()
}

/// The number of bytes `buf` holds.
pub fn buffer_len(buf: &BytesMut) -> (n: usize)
    ensures
        n == bytes_mut_contents(*buf).len(),
{
    buf_len(buf)
}

/// Trusted: `BufMut::put_u32`, documented to write the value in big-endian
/// order at the end; it cannot fail for a `BytesMut` short of `usize::MAX`.
#[verifier::external_body]
fn buf_put_u32(buf: &mut BytesMut, n: u32)
    requires
        bytes_mut_contents(*old(buf)).len() + 4 <= usize::MAX,
    ensures
        bytes_mut_contents(*final(buf)) == bytes_mut_contents(*old(buf)) + spec_u32_be(n),
{
    buf.put_u32(n)
}

/// Trusted: `BufMut::put_slice`, which appends the bytes of `src`; it cannot
/// fail for a `BytesMut` short of `usize::MAX`.
#[verifier::external_body]
fn buf_put_slice(buf: &mut BytesMut, src: &[u8])
    requires
        bytes_mut_contents(*old(buf)).len() + src@.len() <= usize::MAX,
    ensures
        bytes_mut_contents(*final(buf)) == bytes_mut_contents(*old(buf)) + src@,
{
    buf.put_slice(src)
}

/// Trusted: `Buf::advance`, which drops the first `cnt` bytes; it panics
/// when fewer remain, which `requires` rules out.
#[verifier::external_body]
fn buf_advance(buf: &mut BytesMut, cnt: usize)
    requires
        cnt <= bytes_mut_contents(*old(buf)).len(),
    ensures
        bytes_mut_contents(*final(buf)) == bytes_mut_contents(*old(buf)).subrange(
            cnt as int,
            bytes_mut_contents(*old(buf)).len() as int,
        ),
{
    buf.advance(cnt)
}

/// Trusted: `buf[start..end].to_vec()`, a copy of a range of the buffer.
#[verifier::external_body]
fn buf_copy_range(buf: &BytesMut, start: usize, end: usize) -> (v: Vec<u8>)
    requires
        start <= end <= bytes_mut_contents(*buf).len(),
    ensures
        v@ == bytes_mut_contents(*buf).subrange(start as int, end as int),
{
    buf[start..end].to_vec()
}

/// Why a frame was refused.
#[derive(Debug, Clone, Copy, PartialEq, Eq)]
pub enum FrameError {
    /// The announced length exceeds [`MAX_FRAME_SIZE`].
    FrameTooLarge {
        /// The announced length.
        length: usize,
    },
}

/// What decoding finds at the front of `buffered`: nothing yet (the header
/// or the payload is still incomplete), a refused length, or a whole frame's
/// payload.
pub open spec fn spec_decode_frame(buffered: Seq<u8>) -> Result<Option<Seq<u8>>, FrameError> {
    if buffered.len() < 4 {
        Ok(None)
    } else {
        let length = spec_u32_from_be(buffered.subrange(0, 4)) as int;
        if length > MAX_FRAME_SIZE {
            Err(FrameError::FrameTooLarge { length: length as usize })
        } else if buffered.len() < 4 + length {
            Ok(None)
        } else {
            Ok(Some(buffered.subrange(4, 4 + length)))
        }
    }
}

/// The frame of `payload`: its length as a big-endian `u32`, then its bytes.
pub open spec fn spec_encode_frame(payload: Seq<u8>) -> Seq<u8> {
    spec_u32_be(payload.len() as u32) + payload
}

/// A codec for length-prefixed flexbuffers messages of type `T`.
#[derive(Debug)]
pub struct FlexbuffersCodec<T> {
    _marker: PhantomData<T>,
}

impl<T> Default for FlexbuffersCodec<T> {
    /// A codec; the same value as [`FlexbuffersCodec::new`] gives.
    fn default() -> (c: Self) {
        FlexbuffersCodec::new()
    }
}

impl<T> Clone for FlexbuffersCodec<T> {
    fn clone(&self) -> Self {
        FlexbuffersCodec::new()
    }
}

impl<T> FlexbuffersCodec<T> {
    /// Creates a new codec.
    pub fn new() -> Self {
        FlexbuffersCodec { _marker: PhantomData }
    }

    /// Appends the frame of an encoded message to `dst`. The length is
    /// written as `payload.len() as u32`.
    pub fn encode_frame(&mut self, payload: &[u8], dst: &mut BytesMut)
        requires
            bytes_mut_contents(*old(dst)).len() + 4 + payload@.len() <= usize::MAX,
        ensures
            bytes_mut_contents(*final(dst)) == bytes_mut_contents(*old(dst)) + spec_encode_frame(
                payload@,
            ),
    {
        buf_put_u32(dst, payload.len() as u32);
        buf_put_slice(dst, payload);
        assert(bytes_mut_contents(*dst) =~= bytes_mut_contents(*old(dst)) + spec_encode_frame(
            payload@,
        ));
    }

    /// Looks for a whole frame at the front of `src`. When one is there, its
    /// four header bytes are dropped from `src` and a copy of its payload is
    /// returned; the payload stays in `src` until
    /// [`FlexbuffersCodec::consume_payload`] drops it once it has decoded.
    /// Otherwise `src` is left alone.
    pub fn take_frame(&mut self, src: &mut BytesMut) -> (r: Result<Option<Vec<u8>>, FrameError>)
        ensures
            match (r, spec_decode_frame(bytes_mut_contents(*old(src)))) {
                (Ok(Some(p)), Ok(Some(q))) => p@ == q && bytes_mut_contents(*final(src))
                    == bytes_mut_contents(*old(src)).subrange(
                    4,
                    bytes_mut_contents(*old(src)).len() as int,
                ),
                (Ok(None), Ok(None)) => bytes_mut_contents(*final(src)) == bytes_mut_contents(
                    *old(src),
                ),
                (Err(e), Err(f)) => e == f && bytes_mut_contents(*final(src))
                    == bytes_mut_contents(*old(src)),
                _ => false,
            },
    {
        let len = buf_len(src);
        if len < 4 {
            return Ok(None);
        }
        let header = buf_copy_range(src, 0, 4);
        let length = (((header[0] as u32) << 24u32) | ((header[1] as u32) << 16u32) | ((
        header[2] as u32) << 8u32) | (header[3] as u32)) as usize;
        if length > MAX_FRAME_SIZE {
            return Err(FrameError::FrameTooLarge { length });
        }
        if len - 4 < length {
            return Ok(None);
        }
        buf_advance(src, 4);
        let payload = buf_copy_range(src, 0, length);
        assert(payload@ =~= bytes_mut_contents(*old(src)).subrange(4, 4 + length));
        Ok(Some(payload))
    }

    /// Drops the payload of a decoded frame from the front of `src`.
    pub fn consume_payload(&mut self, src: &mut BytesMut, length: usize)
        requires
            length <= bytes_mut_contents(*old(src)).len(),
        ensures
            bytes_mut_contents(*final(src)) == bytes_mut_contents(*old(src)).subrange(
                length as int,
                bytes_mut_contents(*old(src)).len() as int,
            ),
    {
        buf_advance(src, length);
    }
}

/// Law: a frame written for a payload no longer than [`MAX_FRAME_SIZE`]
/// decodes to that payload, whatever follows it in the buffer.
pub proof fn lemma_frame_roundtrip(payload: Seq<u8>, rest: Seq<u8>)
    requires
        payload.len() <= MAX_FRAME_SIZE,
    ensures
        spec_decode_frame(spec_encode_frame(payload) + rest) == Ok::<
            Option<Seq<u8>>,
            FrameError,
        >(Some(payload)),
{
    let buffered = spec_encode_frame(payload) + rest;
    lemma_u32_be_roundtrip(payload.len() as u32);
    assert(buffered.subrange(0, 4) =~= spec_u32_be(payload.len() as u32));
    assert(buffered.subrange(4, 4 + payload.len() as int) =~= payload);
}

/// Law: decoding a frame written for `payload` with `rest` behind it takes
/// exactly the frame: taking the frame drops its 4-byte header, leaving the
/// payload and then `rest`, and consuming the payload leaves `rest`.
pub proof fn lemma_frame_consumes_exactly_its_bytes(payload: Seq<u8>, rest: Seq<u8>)
    requires
        payload.len() <= MAX_FRAME_SIZE,
    ensures
        ({
            let buffered = spec_encode_frame(payload) + rest;
            let after_header = buffered.subrange(4, buffered.len() as int);
            &&& after_header == payload + rest
            &&& after_header.subrange(payload.len() as int, after_header.len() as int) == rest
        }),
{
    let buffered = spec_encode_frame(payload) + rest;
    lemma_u32_be_roundtrip(payload.len() as u32);
    assert(buffered.subrange(4, buffered.len() as int) =~= payload + rest);
    assert((payload + rest).subrange(payload.len() as int, (payload + rest).len() as int) =~= rest);
}

/// Law: a codec holds no state: any two codecs of a type are the same value,
/// so one made by `new` and one made by `default` behave alike.
pub proof fn lemma_codecs_are_alike<T>(a: FlexbuffersCodec<T>, b: FlexbuffersCodec<T>)
    ensures
        a == b,
{
}

/// Law: a buffer that announces more than [`MAX_FRAME_SIZE`] bytes is
/// refused as soon as its header is in, however little of the payload has
/// arrived.
pub proof fn lemma_oversized_frame_refused_early(buffered: Seq<u8>)
    requires
        buffered.len() >= 4,
        spec_u32_from_be(buffered.subrange(0, 4)) > MAX_FRAME_SIZE,
    ensures
        spec_decode_frame(buffered) is Err,
{
}

} // verus!
