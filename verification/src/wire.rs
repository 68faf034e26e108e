//! Big-endian encoding of the 64-bit frame length prefix.

use vstd::prelude::*;

verus! {

/// The eight big-endian bytes of a 64-bit value, most significant first.
pub open spec fn be_bytes_of_u64(x: u64) -> Seq<u8> {
    seq![
        ((x >> 56) & 0xff) as u8,
        ((x >> 48) & 0xff) as u8,
        ((x >> 40) & 0xff) as u8,
        ((x >> 32) & 0xff) as u8,
        ((x >> 24) & 0xff) as u8,
        ((x >> 16) & 0xff) as u8,
        ((x >> 8) & 0xff) as u8,
        (x & 0xff) as u8,
    ]
}

/// The 64-bit value read big-endian from eight bytes.
pub open spec fn u64_of_be_bytes(s: Seq<u8>) -> u64
    recommends
        s.len() == 8,
{
    ((s[0] as u64) << 56) | ((s[1] as u64) << 48) | ((s[2] as u64) << 40) | ((s[3] as u64) << 32)
        | ((s[4] as u64) << 24) | ((s[5] as u64) << 16) | ((s[6] as u64) << 8) | (s[7] as u64)
}

/// Decoding the big-endian bytes of a value gives the value back.
pub proof fn lemma_u64_be_round_trip(x: u64)
    ensures
        u64_of_be_bytes(be_bytes_of_u64(x)) == x,
{
    assert((((((x >> 56) & 0xff) as u8) as u64) << 56) | (((((x >> 48) & 0xff) as u8) as u64)
        << 48) | (((((x >> 40) & 0xff) as u8) as u64) << 40) | (((((x >> 32) & 0xff) as u8) as u64)
        << 32) | (((((x >> 24) & 0xff) as u8) as u64) << 24) | (((((x >> 16) & 0xff) as u8) as u64)
        << 16) | (((((x >> 8) & 0xff) as u8) as u64) << 8) | (((x & 0xff) as u8) as u64) == x)
        by (bit_vector);
}

/// Appends the eight big-endian bytes of `x` to `out`.
pub fn write_be_u64(out: &mut Vec<u8>, x: u64)
    ensures
        final(out)@ == old(out)@ + be_bytes_of_u64(x),
{
    assert((x >> 56) & 0xff < 256 && (x >> 48) & 0xff < 256 && (x >> 40) & 0xff < 256 && (x >> 32)
        & 0xff < 256 && (x >> 24) & 0xff < 256 && (x >> 16) & 0xff < 256 && (x >> 8) & 0xff < 256
        && x & 0xff < 256) by (bit_vector);
    out.push(((x >> 56) & 0xff) as u8);
    out.push(((x >> 48) & 0xff) as u8);
    out.push(((x >> 40) & 0xff) as u8);
    out.push(((x >> 32) & 0xff) as u8);
    out.push(((x >> 24) & 0xff) as u8);
    out.push(((x >> 16) & 0xff) as u8);
    out.push(((x >> 8) & 0xff) as u8);
    out.push((x & 0xff) as u8);
    proof {
        assert(out@ =~= old(out)@ + be_bytes_of_u64(x));
    }
}

/// Reads a 64-bit big-endian value from `buf` starting at `at`.
pub fn read_be_u64(buf: &Vec<u8>, at: usize) -> (r: u64)
    requires
        at + 8 <= buf@.len(),
    ensures
        r == u64_of_be_bytes(buf@.subrange(at as int, at + 8)),
{
    let n = buf.len();
    let r = ((buf[at] as u64) << 56) | ((buf[at + 1] as u64) << 48) | ((buf[at + 2] as u64) << 40)
        | ((buf[at + 3] as u64) << 32) | ((buf[at + 4] as u64) << 24) | ((buf[at + 5] as u64)
        << 16) | ((buf[at + 6] as u64) << 8) | (buf[at + 7] as u64);
    proof {
        let s = buf@.subrange(at as int, at + 8);
        assert(s[0] == buf@[at as int] && s[1] == buf@[at + 1] && s[2] == buf@[at + 2] && s[3]
            == buf@[at + 3] && s[4] == buf@[at + 4] && s[5] == buf@[at + 5] && s[6] == buf@[at + 6]
            && s[7] == buf@[at + 7]);
    }
    r
}

} // verus!
