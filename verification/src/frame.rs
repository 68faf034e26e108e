//! Length-delimited framing over an ordered byte stream.
//!
//! A frame is an eight-byte unsigned big-endian length prefix followed by
//! exactly that many payload bytes; the prefix must be non-zero and at most
//! [`MAX_FRAME_BYTES`]. The functions here work on in-memory byte buffers:
//! the transport only has to deliver bytes in order.

use vstd::prelude::*;
use crate::wire::{be_bytes_of_u64, lemma_u64_be_round_trip, read_be_u64, u64_of_be_bytes, write_be_u64};

verus! {

/// Largest payload, in bytes, that a frame may carry.
pub const MAX_FRAME_BYTES: u64 = 4096;

/// Whether a payload may be framed: non-empty and within the frame bound.
pub open spec fn payload_ok(payload: Seq<u8>) -> bool {
    0 < payload.len() <= MAX_FRAME_BYTES
}

/// The wire image of one frame: the big-endian length prefix, then the payload.
pub open spec fn frame_seq(payload: Seq<u8>) -> Seq<u8> {
    be_bytes_of_u64(payload.len() as u64) + payload
}

/// The length prefix at the front of a buffered byte stream.
pub open spec fn header_val(s: Seq<u8>) -> u64
    recommends
        s.len() >= 8,
{
    u64_of_be_bytes(s.subrange(0, 8))
}

/// Whether the length prefix at the front of `s` is acceptable.
pub open spec fn header_ok(s: Seq<u8>) -> bool
    recommends
        s.len() >= 8,
{
    0 < header_val(s) <= MAX_FRAME_BYTES
}

/// Whether `s` begins with a complete, well-formed frame.
pub open spec fn frame_complete(s: Seq<u8>) -> bool {
    s.len() >= 8 && header_ok(s) && s.len() >= 8 + header_val(s)
}

/// The payload of the frame at the front of `s`.
pub open spec fn frame_payload(s: Seq<u8>) -> Seq<u8>
    recommends
        frame_complete(s),
{
    s.subrange(8, 8 + header_val(s))
}

/// What is left of `s` after the frame at its front.
pub open spec fn frame_rest(s: Seq<u8>) -> Seq<u8>
    recommends
        frame_complete(s),
{
    s.skip(8 + header_val(s))
}

/// Appends the frame image of `payload` to `out` when the payload is
/// non-empty and within the frame bound; otherwise leaves `out` unchanged.
pub fn append_frame(out: &mut Vec<u8>, payload: &Vec<u8>) -> (ok: bool)
    ensures
        ok == payload_ok(payload@),
        ok ==> final(out)@ == old(out)@ + frame_seq(payload@),
        !ok ==> final(out)@ == old(out)@,
{
    let n = payload.len();
    if n == 0 || n as u64 > MAX_FRAME_BYTES {
        return false;
    }
    write_be_u64(out, n as u64);
    let mut i: usize = 0;
    while i < n
        invariant
            i <= n,
            n == payload@.len(),
            out@ == old(out)@ + be_bytes_of_u64(n as u64) + payload@.take(i as int),
        decreases n - i,
    {
        out.push(payload[i]);
        proof {
            assert(payload@.take(i + 1) =~= payload@.take(i as int).push(payload@[i as int]));
        }
        i = i + 1;
    }
    proof {
        assert(out@ =~= old(out)@ + frame_seq(payload@));
    }
    true
}

/// The result of trying to take one frame from the front of a buffer.
pub enum FrameTake {
    /// A whole well-formed frame was buffered; this is its payload.
    Payload(Vec<u8>),
    /// Fewer bytes than a header, or a sound header with an incomplete body.
    NeedMore,
    /// A length prefix of zero or above `MAX_FRAME_BYTES`; nothing consumed.
    BadLength,
}

/// Takes one frame off the front of `buf`.
///
/// A zero or over-limit length prefix is refused before any of the body is
/// touched, and the buffer is left as it was, so a corrupt stream can never
/// force a body read.
pub fn take_frame(buf: &mut Vec<u8>) -> (r: FrameTake)
    ensures
        old(buf)@.len() < 8 ==> r is NeedMore && final(buf)@ == old(buf)@,
        old(buf)@.len() >= 8 && !header_ok(old(buf)@) ==> r is BadLength && final(buf)@ == old(
            buf,
        )@,
        old(buf)@.len() >= 8 && header_ok(old(buf)@) && !frame_complete(old(buf)@) ==> r
            is NeedMore && final(buf)@ == old(buf)@,
        frame_complete(old(buf)@) ==> (r matches FrameTake::Payload(p) && p@ == frame_payload(
            old(buf)@,
        ) && final(buf)@ == frame_rest(old(buf)@)),
{
    let total = buf.len();
    if total < 8 {
        return FrameTake::NeedMore;
    }
    let len = read_be_u64(buf, 0);
    if len == 0 || len > MAX_FRAME_BYTES {
        return FrameTake::BadLength;
    }
    let body = len as usize;
    if total - 8 < body {
        return FrameTake::NeedMore;
    }
    let mut payload: Vec<u8> = Vec::new();
    let mut i: usize = 8;
    while i < 8 + body
        invariant
            8 <= i <= 8 + body,
            8 + body <= total,
            total == buf@.len(),
            payload@ == buf@.subrange(8, i as int),
        decreases 8 + body - i,
    {
        payload.push(buf[i]);
        proof {
            assert(buf@.subrange(8, i + 1) =~= buf@.subrange(8, i as int).push(buf@[i as int]));
        }
        i = i + 1;
    }
    let mut rest: Vec<u8> = Vec::new();
    let mut j: usize = 8 + body;
    while j < total
        invariant
            8 + body <= j <= total,
            total == buf@.len(),
            rest@ == buf@.subrange(8 + body, j as int),
        decreases total - j,
    {
        rest.push(buf[j]);
        proof {
            assert(buf@.subrange(8 + body, j + 1) =~= buf@.subrange(8 + body, j as int).push(
                buf@[j as int],
            ));
        }
        j = j + 1;
    }
    *buf = rest;
    proof {
        assert(payload@ =~= frame_payload(old(buf)@));
        assert(buf@ =~= frame_rest(old(buf)@));
    }
    FrameTake::Payload(payload)
}

/// Framing round trip: a buffered stream that begins with the frame image of
/// an acceptable payload holds a complete frame whose payload is that
/// payload, and consuming the frame leaves exactly the bytes that followed.
pub proof fn lemma_frame_round_trip(payload: Seq<u8>, rest: Seq<u8>)
    requires
        payload_ok(payload),
    ensures
        frame_complete(frame_seq(payload) + rest),
        frame_payload(frame_seq(payload) + rest) == payload,
        frame_rest(frame_seq(payload) + rest) == rest,
{
    let s = frame_seq(payload) + rest;
    lemma_u64_be_round_trip(payload.len() as u64);
    assert(s.subrange(0, 8) =~= be_bytes_of_u64(payload.len() as u64));
    assert(header_val(s) == payload.len());
    assert(frame_payload(s) =~= payload);
    assert(frame_rest(s) =~= rest);
}

} // verus!
