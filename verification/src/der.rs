//! Decoder for the DER-encoded ECDSA signature `SEQUENCE { INTEGER r,
//! INTEGER s }` that the remote signing service returns. The integer
//! contents are kept exactly as DER emits them, leading-zero padding
//! included: nothing is renormalized or stripped.

use vstd::prelude::*;
use vstd::slice::{slice_subrange, slice_to_vec};

verus! {

/// The raw big-endian integer byte strings of an ECDSA signature, exactly as
/// DER emitted them.
pub struct EcdsaSignaturePair {
    pub r: Vec<u8>,
    pub s: Vec<u8>,
}

/// A DER length read at position `i` of `s`: its value and the position just
/// after it. Short form is one byte below `0x80`; long form is `0x81` to
/// `0x84` followed by that many big-endian value bytes. Longer forms would
/// declare contents no buffer here can hold and are rejected, as is the
/// indefinite form `0x80`.
pub open spec fn spec_take_der_len(s: Seq<u8>, i: int) -> Option<(int, int)> {
    if i < 0 || i >= s.len() {
        None
    } else {
        let b = s[i];
        if b < 0x80 {
            Some((b as int, i + 1))
        } else {
            let k = b - 0x80;
            if k < 1 || k > 4 || i + 1 + k > s.len() {
                None
            } else {
                let n: int = if k == 1 {
                    s[i + 1] as int
                } else if k == 2 {
                    (s[i + 1] as int) * 0x100 + (s[i + 2] as int)
                } else if k == 3 {
                    (s[i + 1] as int) * 0x10000 + (s[i + 2] as int) * 0x100 + (s[i + 3] as int)
                } else {
                    (s[i + 1] as int) * 0x1000000 + (s[i + 2] as int) * 0x10000 + (s[i
                        + 3] as int) * 0x100 + (s[i + 4] as int)
                };
                Some((n, i + 1 + k as int))
            }
        }
    }
}

/// The contents of the DER element with the given tag at position `i` of
/// `s`, together with the position just after it; nothing when the tag
/// differs or the length runs past the end of `s`.
pub open spec fn spec_take_der_element(s: Seq<u8>, i: int, tag: u8) -> Option<(Seq<u8>, int)> {
    if i < 0 || i >= s.len() || s[i] != tag {
        None
    } else {
        match spec_take_der_len(s, i + 1) {
            None => None,
            Some((n, j)) => if j + n > s.len() {
                None
            } else {
                Some((s.subrange(j, j + n), j + n))
            },
        }
    }
}

/// The `(r, s)` integer contents of a DER-encoded ECDSA signature: one
/// SEQUENCE spanning the whole input, holding exactly two INTEGERs.
pub open spec fn spec_parse_ecdsa_der(s: Seq<u8>) -> Option<(Seq<u8>, Seq<u8>)> {
    match spec_take_der_element(s, 0, 0x30) {
        None => None,
        Some((body, end)) => if end != s.len() {
            None
        } else {
            let body_start = end - body.len();
            match spec_take_der_element(s, body_start, 0x02) {
                None => None,
                Some((r_bytes, after_r)) => match spec_take_der_element(s, after_r, 0x02) {
                    None => None,
                    Some((s_bytes, after_s)) => if after_s != s.len() {
                        None
                    } else {
                        Some((r_bytes, s_bytes))
                    },
                },
            }
        },
    }
}

/// Reads the DER length at `pos`, exactly as `spec_take_der_len` says.
fn read_der_len(data: &[u8], pos: usize) -> (r: Option<(u32, usize)>)
    ensures
        match r {
            Some(value_next) => {
                &&& spec_take_der_len(data@, pos as int) == Some(
                    (value_next.0 as int, value_next.1 as int),
                )
                &&& value_next.1 <= data@.len()
            },
            None => spec_take_der_len(data@, pos as int) is None,
        },
{
    let len = data.len();
    if pos >= len {
        return None;
    }
    let b = data[pos];
    if b < 0x80 {
        return Some((b as u32, pos + 1));
    }
    let k = (b - 0x80) as usize;
    if k < 1 || k > 4 || k > len - (pos + 1) {
        return None;
    }
    let n: u32 = if k == 1 {
        data[pos + 1] as u32
    } else if k == 2 {
        (data[pos + 1] as u32) * 0x100 + (data[pos + 2] as u32)
    } else if k == 3 {
        (data[pos + 1] as u32) * 0x10000 + (data[pos + 2] as u32) * 0x100 + (data[pos + 3] as u32)
    } else {
        (data[pos + 1] as u32) * 0x1000000 + (data[pos + 2] as u32) * 0x10000 + (data[pos
            + 3] as u32) * 0x100 + (data[pos + 4] as u32)
    };
    Some((n, pos + 1 + k))
}

/// Reads the DER element with tag `tag` at `pos`, returning the bounds of
/// its contents, exactly as `spec_take_der_element` says.
fn read_der_element(data: &[u8], pos: usize, tag: u8) -> (r: Option<(usize, usize)>)
    ensures
        match r {
            Some(bounds) => {
                &&& bounds.0 <= bounds.1 <= data@.len()
                &&& spec_take_der_element(data@, pos as int, tag) == Some(
                    (data@.subrange(bounds.0 as int, bounds.1 as int), bounds.1 as int),
                )
            },
            None => spec_take_der_element(data@, pos as int, tag) is None,
        },
{
    let len = data.len();
    if pos >= len || data[pos] != tag {
        return None;
    }
    match read_der_len(data, pos + 1) {
        None => None,
        Some((n, j)) => {
            if (n as u64) > ((len - j) as u64) {
                return None;
            }
            Some((j, j + (n as usize)))
        },
    }
}

/// Decodes a DER-encoded ECDSA signature into its raw `(r, s)` byte strings,
/// exactly as `spec_parse_ecdsa_der` says; the integer bytes are preserved
/// verbatim.
pub fn parse_ecdsa_der(sig: &[u8]) -> (r: Option<EcdsaSignaturePair>)
    ensures
        match r {
            Some(pair) => spec_parse_ecdsa_der(sig@) == Some((pair.r@, pair.s@)),
            None => spec_parse_ecdsa_der(sig@) is None,
        },
{
    let len = sig.len();
    let (body_start, body_end) = match read_der_element(sig, 0, 0x30) {
        None => { return None; },
        Some(b) => b,
    };
    if body_end != len {
        return None;
    }
    let (r_start, r_end) = match read_der_element(sig, body_start, 0x02) {
        None => { return None; },
        Some(b) => b,
    };
    let (s_start, s_end) = match read_der_element(sig, r_end, 0x02) {
        None => { return None; },
        Some(b) => b,
    };
    if s_end != len {
        return None;
    }
    let r_bytes = slice_to_vec(slice_subrange(sig, r_start, r_end));
    let s_bytes = slice_to_vec(slice_subrange(sig, s_start, s_end));
    Some(EcdsaSignaturePair { r: r_bytes, s: s_bytes })
}

} // verus!
