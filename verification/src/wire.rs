//! Byte-level primitives of the SSH wire vocabulary: 4-byte big-endian
//! lengths and length-prefixed byte strings.

use vstd::prelude::*;
use vstd::slice::{slice_subrange, slice_to_vec};

verus! {

/// The four big-endian bytes that encode a 32-bit length.
pub open spec fn spec_u32_be(n: u32) -> Seq<u8> {
    seq![
        (n >> 24) as u8,
        ((n >> 16) & 0xff) as u8,
        ((n >> 8) & 0xff) as u8,
        (n & 0xff) as u8,
    ]
}

/// The 32-bit value read back from four big-endian bytes.
pub open spec fn spec_be32(b0: u8, b1: u8, b2: u8, b3: u8) -> u32 {
    ((b0 as u32) << 24) | ((b1 as u32) << 16) | ((b2 as u32) << 8) | (b3 as u32)
}

/// A length-prefixed byte string: four big-endian length bytes, then the bytes.
pub open spec fn spec_lv(data: Seq<u8>) -> Seq<u8> {
    spec_u32_be(data.len() as u32) + data
}

/// Reading the four bytes written for `n` gives `n` back.
pub proof fn lemma_be32_round_trip(n: u32)
    ensures
        spec_be32(spec_u32_be(n)[0], spec_u32_be(n)[1], spec_u32_be(n)[2], spec_u32_be(n)[3]) == n,
{
    assert((((((n >> 24) as u8) as u32) << 24) | (((((n >> 16) & 0xff) as u8) as u32) << 16) | (((((
    n >> 8) & 0xff) as u8) as u32) << 8) | (((n & 0xff) as u8) as u32)) == n) by (bit_vector);
}

/// The length-prefixed field that starts at position `i` of `s`, together
/// with the position just after it; nothing when the four length bytes or
/// the declared length run past the end of `s`.
pub open spec fn spec_take_lv(s: Seq<u8>, i: int) -> Option<(Seq<u8>, int)> {
    if i < 0 || i + 4 > s.len() {
        None
    } else {
        let n = spec_be32(s[i], s[i + 1], s[i + 2], s[i + 3]) as int;
        if i + 4 + n > s.len() {
            None
        } else {
            Some((s.subrange(i + 4, i + 4 + n), i + 4 + n))
        }
    }
}

/// Reads the length-prefixed field at `pos`, exactly as `spec_take_lv` says.
pub fn read_lv(data: &[u8], pos: usize) -> (r: Option<(Vec<u8>, usize)>)
    ensures
        match r {
            Some(field_next) => {
                &&& spec_take_lv(data@, pos as int) == Some((field_next.0@, field_next.1 as int))
                &&& field_next.1 <= data@.len()
            },
            None => spec_take_lv(data@, pos as int) is None,
        },
{
    let len = data.len();
    if pos > len || len - pos < 4 {
        return None;
    }
    let n: u32 = ((data[pos] as u32) << 24) | ((data[pos + 1] as u32) << 16) | ((data[pos
        + 2] as u32) << 8) | (data[pos + 3] as u32);
    let rest = len - (pos + 4);
    if (n as u64) > (rest as u64) {
        return None;
    }
    let field = slice_to_vec(slice_subrange(data, pos + 4, pos + 4 + (n as usize)));
    Some((field, pos + 4 + (n as usize)))
}

/// Appends the four big-endian bytes of `n` to `out`.
pub fn write_u32_be(out: &mut Vec<u8>, n: u32)
    ensures
        final(out)@ == old(out)@ + spec_u32_be(n),
{
    out.push((n >> 24) as u8);
    out.push(((n >> 16) & 0xff) as u8);
    out.push(((n >> 8) & 0xff) as u8);
    out.push((n & 0xff) as u8);
    proof {
        assert(out@ =~= old(out)@ + spec_u32_be(n));
    }
}

/// Appends the single byte `b` to `out`.
pub fn write_u8(out: &mut Vec<u8>, b: u8)
    ensures
        final(out)@ == old(out)@ + seq![b],
{
    out.push(b);
    proof {
        assert(out@ =~= old(out)@ + seq![b]);
    }
}

/// Appends `data` to `out` as a length-prefixed byte string.
pub fn write_lv(out: &mut Vec<u8>, data: &[u8])
    requires
        data@.len() < 0x1_0000_0000,
    ensures
        final(out)@ == old(out)@ + spec_lv(data@),
{
    let n = data.len();
    write_u32_be(out, n as u32);
    for i in 0..n
        invariant
            n == data@.len(),
            n < 0x1_0000_0000,
            out@ == old(out)@ + spec_u32_be(n as u32) + data@.subrange(0, i as int),
    {
        out.push(data[i]);
        proof {
            assert(data@.subrange(0, i + 1) =~= data@.subrange(0, i as int) + seq![data@[i as int]]);
            assert(out@ =~= old(out)@ + spec_u32_be(n as u32) + data@.subrange(0, i + 1));
        }
    }
    proof {
        assert(data@.subrange(0, n as int) =~= data@);
    }
}

} // verus!
