//! The integer codec: unsigned 64-bit values to and from little-endian
//! bytes, under the fixed-width and the variable-width strategy.

use vstd::bytes::*;
use vstd::prelude::*;
use vstd::slice::slice_subrange;

use crate::config::IntStrategy;

verus! {

/// Largest value the variable strategy packs into a single byte.
pub const SINGLE_BYTE_MAX: u8 = 250;

/// Marker announcing 2 little-endian bytes.
pub const MARKER_U16: u8 = 251;

/// Marker announcing 4 little-endian bytes.
pub const MARKER_U32: u8 = 252;

/// Marker announcing 8 little-endian bytes.
pub const MARKER_U64: u8 = 253;

/// The bytes the fixed strategy produces for `v`: always 8 bytes,
/// little-endian, regardless of value.
pub open spec fn fixed_encoding(v: u64) -> Seq<u8> {
    spec_u64_to_le_bytes(v)
}

/// The bytes the variable strategy produces for `v`: values up to 250 are
/// a single literal byte; larger values are a marker byte announcing the
/// width, then that many little-endian bytes.  The marker bytes 251..=253
/// never occur as literal values, because the literal range stops at 250.
pub open spec fn variable_encoding(v: u64) -> Seq<u8> {
    if v <= SINGLE_BYTE_MAX {
        seq![v as u8]
    } else if v <= u16::MAX {
        seq![MARKER_U16] + spec_u16_to_le_bytes(v as u16)
    } else if v <= u32::MAX {
        seq![MARKER_U32] + spec_u32_to_le_bytes(v as u32)
    } else {
        seq![MARKER_U64] + spec_u64_to_le_bytes(v)
    }
}

/// The bytes the given strategy produces for `v`.
pub open spec fn int_encoding(strategy: IntStrategy, v: u64) -> Seq<u8> {
    match strategy {
        IntStrategy::Fixed => fixed_encoding(v),
        IntStrategy::Variable => variable_encoding(v),
    }
}

/// What decoding a fixed-width integer from the front of `s` yields: the
/// value and the count of bytes consumed, or nothing when fewer than
/// 8 bytes remain.
pub open spec fn fixed_decoding(s: Seq<u8>) -> Option<(u64, int)> {
    if s.len() >= 8 {
        Some((spec_u64_from_le_bytes(s.subrange(0, 8)), 8))
    } else {
        None
    }
}

/// What decoding a variable-width integer from the front of `s` yields.
/// The first byte is either the value itself, or a marker announcing how
/// many little-endian bytes follow.  Decoding fails when `s` is empty,
/// when fewer bytes remain than the marker announces, or on the two
/// reserved first bytes 254 and 255.
pub open spec fn variable_decoding(s: Seq<u8>) -> Option<(u64, int)> {
    if s.len() == 0 {
        None
    } else if s[0] <= SINGLE_BYTE_MAX {
        Some((s[0] as u64, 1))
    } else if s[0] == MARKER_U16 {
        if s.len() >= 3 {
            Some((spec_u16_from_le_bytes(s.subrange(1, 3)) as u64, 3))
        } else {
            None
        }
    } else if s[0] == MARKER_U32 {
        if s.len() >= 5 {
            Some((spec_u32_from_le_bytes(s.subrange(1, 5)) as u64, 5))
        } else {
            None
        }
    } else if s[0] == MARKER_U64 {
        if s.len() >= 9 {
            Some((spec_u64_from_le_bytes(s.subrange(1, 9)), 9))
        } else {
            None
        }
    } else {
        None
    }
}

/// What decoding an integer from the front of `s` yields under the given
/// strategy.
pub open spec fn int_decoding(strategy: IntStrategy, s: Seq<u8>) -> Option<(u64, int)> {
    match strategy {
        IntStrategy::Fixed => fixed_decoding(s),
        IntStrategy::Variable => variable_decoding(s),
    }
}

/// The encoding of an integer is 8 bytes under the fixed strategy and
/// 1, 3, 5 or 9 bytes under the variable one.
pub proof fn lemma_int_encoding_len(strategy: IntStrategy, v: u64)
    ensures
        1 <= int_encoding(strategy, v).len() <= 9,
        strategy is Fixed ==> int_encoding(strategy, v).len() == 8,
        strategy is Variable ==> int_encoding(strategy, v).len() == if v <= SINGLE_BYTE_MAX {
            1int
        } else if v <= u16::MAX {
            3int
        } else if v <= u32::MAX {
            5int
        } else {
            9int
        },
{
    lemma_auto_spec_u16_to_from_le_bytes();
    lemma_auto_spec_u32_to_from_le_bytes();
    lemma_auto_spec_u64_to_from_le_bytes();
}

/// Decoding inverts encoding, whatever bytes follow the length field:
/// the front of `int_encoding(strategy, v) + rest` decodes to `v`, and
/// consumes exactly the encoding's bytes.
pub proof fn lemma_int_round_trip(strategy: IntStrategy, v: u64, rest: Seq<u8>)
    ensures
        int_decoding(strategy, int_encoding(strategy, v) + rest) == Some(
            (v, int_encoding(strategy, v).len() as int),
        ),
{
    lemma_auto_spec_u16_to_from_le_bytes();
    lemma_auto_spec_u32_to_from_le_bytes();
    lemma_auto_spec_u64_to_from_le_bytes();
    let enc = int_encoding(strategy, v);
    let s = enc + rest;
    match strategy {
        IntStrategy::Fixed => {
            assert(s.subrange(0, 8) =~= spec_u64_to_le_bytes(v));
        },
        IntStrategy::Variable => {
            if v <= SINGLE_BYTE_MAX {
                assert(s[0] == v as u8);
            } else if v <= u16::MAX {
                assert(s[0] == MARKER_U16);
                assert(s.subrange(1, 3) =~= spec_u16_to_le_bytes(v as u16));
            } else if v <= u32::MAX {
                assert(s[0] == MARKER_U32);
                assert(s.subrange(1, 5) =~= spec_u32_to_le_bytes(v as u32));
            } else {
                assert(s[0] == MARKER_U64);
                assert(s.subrange(1, 9) =~= spec_u64_to_le_bytes(v));
            }
        },
    }
}

/// Appends every byte of `src` to `dst`, in order.
pub fn append_bytes(dst: &mut Vec<u8>, src: &Vec<u8>)
    ensures
        final(dst)@ == old(dst)@ + src@,
{
    let mut i: usize = 0;
    while i < src.len()
        invariant
            i <= src@.len(),
            dst@ == old(dst)@ + src@.subrange(0, i as int),
        decreases src@.len() - i,
    {
        dst.push(src[i]);
        assert(old(dst)@ + src@.subrange(0, i as int) + seq![src@[i as int]] =~= old(dst)@
            + src@.subrange(0, i + 1));
        i = i + 1;
    }
    assert(src@.subrange(0, src@.len() as int) =~= src@);
}

/// Encodes `v` under the given strategy.
pub fn encode_int(strategy: IntStrategy, v: u64) -> (r: Vec<u8>)
    ensures
        r@ == int_encoding(strategy, v),
{
    match strategy {
        IntStrategy::Fixed => u64_to_le_bytes(v),
        IntStrategy::Variable => {
            if v <= SINGLE_BYTE_MAX as u64 {
                let mut r: Vec<u8> = Vec::new();
                r.push(v as u8);
                assert(r@ =~= variable_encoding(v));
                r
            } else if v <= u16::MAX as u64 {
                let mut r: Vec<u8> = Vec::new();
                r.push(MARKER_U16);
                let tail = u16_to_le_bytes(v as u16);
                append_bytes(&mut r, &tail);
                assert(r@ =~= variable_encoding(v));
                r
            } else if v <= u32::MAX as u64 {
                let mut r: Vec<u8> = Vec::new();
                r.push(MARKER_U32);
                let tail = u32_to_le_bytes(v as u32);
                append_bytes(&mut r, &tail);
                assert(r@ =~= variable_encoding(v));
                r
            } else {
                let mut r: Vec<u8> = Vec::new();
                r.push(MARKER_U64);
                let tail = u64_to_le_bytes(v);
                append_bytes(&mut r, &tail);
                assert(r@ =~= variable_encoding(v));
                r
            }
        },
    }
}

/// Decodes an integer from the front of `data` under the given strategy,
/// reporting how many bytes were consumed.  Fails when too few bytes
/// remain for the announced width, or on a reserved first byte.
pub fn decode_int(strategy: IntStrategy, data: &Vec<u8>) -> (r: Option<(u64, usize)>)
    ensures
        match int_decoding(strategy, data@) {
            Some((v, w)) => r == Some((v, w as usize)),
            None => r is None,
        },
{
    match strategy {
        IntStrategy::Fixed => {
            if data.len() >= 8 {
                let v = u64_from_le_bytes(slice_subrange(data.as_slice(), 0, 8));
                Some((v, 8))
            } else {
                None
            }
        },
        IntStrategy::Variable => {
            if data.len() == 0 {
                return None;
            }
            let first = data[0];
            if first <= SINGLE_BYTE_MAX {
                Some((first as u64, 1))
            } else if first == MARKER_U16 {
                if data.len() >= 3 {
                    let v = u16_from_le_bytes(slice_subrange(data.as_slice(), 1, 3));
                    Some((v as u64, 3))
                } else {
                    None
                }
            } else if first == MARKER_U32 {
                if data.len() >= 5 {
                    let v = u32_from_le_bytes(slice_subrange(data.as_slice(), 1, 5));
                    Some((v as u64, 5))
                } else {
                    None
                }
            } else if first == MARKER_U64 {
                if data.len() >= 9 {
                    let v = u64_from_le_bytes(slice_subrange(data.as_slice(), 1, 9));
                    Some((v, 9))
                } else {
                    None
                }
            } else {
                None
            }
        },
    }
}

} // verus!
