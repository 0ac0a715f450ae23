//! The length-prefixed sequence codec and its validation layer.
//!
//! A byte sequence is encoded as the integer encoding of its length,
//! followed by the bytes verbatim.  Encoding enforces the configured size
//! ceiling twice: on the logical payload before any encoding work, and on
//! the encoded buffer after it.  Decoding charges the length field as a
//! fixed 8-byte read and the payload as its own length against the same
//! ceiling, and the exact-consumption variant rejects any trailing bytes.

use vstd::prelude::*;
use vstd::slice::{slice_subrange, slice_to_vec};

use crate::config::{Config, IntStrategy};
use crate::intcodec::{
    decode_int, encode_int, append_bytes, int_decoding, int_encoding, lemma_int_round_trip,
};

verus! {

/// Why an encode or decode call failed.  The boundary surface collapses
/// all of these into its single failure signal; these variants let an
/// embedding caller tell the cases apart.
#[derive(Clone, Copy, Debug, PartialEq, Eq, Structural)]
pub enum CodecError {
    /// The logical payload, or the encoded buffer, is over the ceiling.
    SizeLimitExceeded,
    /// A malformed length field, or fewer bytes than it announces.
    DecodingFailure,
    /// Decoding succeeded but did not consume the whole input.
    TrailingBytes,
}

/// The bytes that encoding `payload` produces: the length field, then the
/// payload verbatim.
pub open spec fn sequence_encoding(strategy: IntStrategy, payload: Seq<u8>) -> Seq<u8> {
    int_encoding(strategy, payload.len() as u64) + payload
}

/// What decoding the front of `s` yields: the payload the length field
/// announces, and the count of bytes consumed (length field plus
/// payload), or nothing when the length field is malformed or fewer
/// payload bytes remain than it announces.
pub open spec fn sequence_decoding(strategy: IntStrategy, s: Seq<u8>) -> Option<(Seq<u8>, int)> {
    match int_decoding(strategy, s) {
        Some((len, w)) => {
            if w + len <= s.len() {
                Some((s.subrange(w, w + len), w + len))
            } else {
                None
            }
        },
        None => None,
    }
}

/// The outcome an encode call owes the caller: the encoded bytes when
/// both size checks pass, and `SizeLimitExceeded` otherwise.  The two
/// checks are deliberately independent: the payload check fires before
/// any encoding work, and the encoded check can fire even when the
/// payload itself is within the ceiling, because of the length field's
/// overhead.
pub open spec fn checked_encoding(config: Config, payload: Seq<u8>) -> Result<Seq<u8>, CodecError> {
    if payload.len() <= config.size_limit && sequence_encoding(config.int_strategy, payload).len()
        <= config.size_limit {
        Ok(sequence_encoding(config.int_strategy, payload))
    } else {
        Err(CodecError::SizeLimitExceeded)
    }
}

/// The outcome a decode call owes the caller.  The ceiling is charged as if
/// the length field were always an 8-byte read, whatever its width under
/// the variable strategy, plus the announced payload length; the charge
/// for the length field is made before it is read, so a ceiling under
/// 8 bytes rejects every input.
pub open spec fn checked_decoding(config: Config, s: Seq<u8>) -> Result<(Seq<u8>, int), CodecError> {
    if config.size_limit < 8 {
        Err(CodecError::SizeLimitExceeded)
    } else {
        match int_decoding(config.int_strategy, s) {
            None => Err(CodecError::DecodingFailure),
            Some((len, w)) => {
                if 8 + len > config.size_limit {
                    Err(CodecError::SizeLimitExceeded)
                } else if w + len > s.len() {
                    Err(CodecError::DecodingFailure)
                } else {
                    Ok((s.subrange(w, w + len), w + len))
                }
            },
        }
    }
}

/// The outcome of a decode call that must consume its whole input:
/// as `checked_decoding`, but trailing bytes are a hard error.
pub open spec fn checked_exact_decoding(config: Config, s: Seq<u8>) -> Result<Seq<u8>, CodecError> {
    match checked_decoding(config, s) {
        Ok((payload, consumed)) => {
            if consumed == s.len() {
                Ok(payload)
            } else {
                Err(CodecError::TrailingBytes)
            }
        },
        Err(e) => Err(e),
    }
}

/// Encodes `payload` under the configuration: length field, then the
/// bytes verbatim.  Fails if and only if the payload or the encoded
/// buffer is over the configured ceiling.
pub fn encode_sequence(config: &Config, payload: &Vec<u8>) -> (r: Result<Vec<u8>, CodecError>)
    ensures
        match checked_encoding(*config, payload@) {
            Ok(enc) => r matches Ok(v) && v@ == enc,
            Err(e) => r matches Err(got) && got == e,
        },
{
    if payload.len() as u64 > config.size_limit {
        return Err(CodecError::SizeLimitExceeded);
    }
    let mut out = encode_int(config.int_strategy, payload.len() as u64);
    append_bytes(&mut out, payload);
    if out.len() as u64 > config.size_limit {
        return Err(CodecError::SizeLimitExceeded);
    }
    Ok(out)
}

/// Decodes the front of `data` under the configuration, reporting how
/// many bytes were consumed, so a caller can check exact consumption.
pub fn decode_sequence(config: &Config, data: &Vec<u8>) -> (r: Result<(Vec<u8>, usize), CodecError>)
    ensures
        match checked_decoding(*config, data@) {
            Ok((payload, consumed)) => r matches Ok(v) && v.0@ == payload && v.1 == consumed,
            Err(e) => r matches Err(got) && got == e,
        },
{
    if config.size_limit < 8 {
        return Err(CodecError::SizeLimitExceeded);
    }
    let (len, width) = match decode_int(config.int_strategy, data) {
        Some(lw) => lw,
        None => {
            return Err(CodecError::DecodingFailure);
        },
    };
    if len > config.size_limit - 8 {
        return Err(CodecError::SizeLimitExceeded);
    }
    assert(0 < width <= data@.len());
    let remaining = data.len() - width;
    if len > remaining as u64 {
        return Err(CodecError::DecodingFailure);
    }
    let consumed = width + len as usize;
    let payload = slice_to_vec(slice_subrange(data.as_slice(), width, consumed));
    Ok((payload, consumed))
}

/// Decodes `data` under the configuration, insisting that decoding
/// consume the input exactly: any trailing bytes are a hard error, so
/// extra input is never silently ignored.
pub fn decode_sequence_exact(config: &Config, data: &Vec<u8>) -> (r: Result<Vec<u8>, CodecError>)
    ensures
        match checked_exact_decoding(*config, data@) {
            Ok(payload) => r matches Ok(v) && v@ == payload,
            Err(e) => r matches Err(got) && got == e,
        },
{
    let (payload, consumed) = match decode_sequence(config, data) {
        Ok(pc) => pc,
        Err(e) => {
            return Err(e);
        },
    };
    if consumed != data.len() {
        return Err(CodecError::TrailingBytes);
    }
    Ok(payload)
}

/// Round-trip: under either strategy, decoding what encoding produced
/// yields the payload back, consumes the whole encoded buffer, and so
/// also passes the exact-consumption check.
pub proof fn lemma_sequence_round_trip(strategy: IntStrategy, payload: Seq<u8>)
    requires
        payload.len() <= u64::MAX,
    ensures
        sequence_decoding(strategy, sequence_encoding(strategy, payload)) == Some(
            (payload, sequence_encoding(strategy, payload).len() as int),
        ),
{
    let len = payload.len() as u64;
    lemma_int_round_trip(strategy, len, payload);
    let enc = sequence_encoding(strategy, payload);
    let w = int_encoding(strategy, len).len() as int;
    assert(enc.subrange(w, w + len) =~= payload);
}

/// Round-trip through the validation layer: when the payload and its
/// encoded form are within the ceiling, and the ceiling leaves room for
/// the 8 bytes a decode charges for the length field, encoding succeeds
/// and decoding its result under the same configuration returns the
/// payload, consuming the buffer exactly.  (Under the fixed strategy the
/// 8-byte condition already follows from the encoded form's bound; under
/// the variable strategy it rules out ceilings within 8 bytes of the
/// payload length, where the decode-side charge would reject the buffer
/// that encoding accepted.)
pub proof fn lemma_checked_round_trip(config: Config, payload: Seq<u8>)
    requires
        payload.len() <= config.size_limit,
        sequence_encoding(config.int_strategy, payload).len() <= config.size_limit,
        8 + payload.len() <= config.size_limit,
    ensures
        checked_encoding(config, payload) == Ok::<Seq<u8>, CodecError>(
            sequence_encoding(config.int_strategy, payload),
        ),
        checked_exact_decoding(config, sequence_encoding(config.int_strategy, payload))
            == Ok::<Seq<u8>, CodecError>(payload),
{
    let strategy = config.int_strategy;
    let len = payload.len() as u64;
    lemma_int_round_trip(strategy, len, payload);
    let enc = sequence_encoding(strategy, payload);
    let w = int_encoding(strategy, len).len() as int;
    assert(enc.subrange(w, w + len) =~= payload);
}

/// Trailing-byte rejection: appending anything to a validly encoded
/// buffer leaves decoding returning the same payload and consumption
/// count as before, so the exact-consumption check fails; the suffix is
/// never silently ignored.
pub proof fn lemma_trailing_bytes_rejected(strategy: IntStrategy, payload: Seq<u8>, extra: Seq<u8>)
    requires
        payload.len() <= u64::MAX,
        extra.len() > 0,
    ensures
        sequence_decoding(strategy, sequence_encoding(strategy, payload) + extra) == Some(
            (payload, sequence_encoding(strategy, payload).len() as int),
        ),
{
    let len = payload.len() as u64;
    lemma_int_round_trip(strategy, len, payload + extra);
    let enc = sequence_encoding(strategy, payload);
    let s = enc + extra;
    let w = int_encoding(strategy, len).len() as int;
    assert(int_encoding(strategy, len) + (payload + extra) =~= s);
    assert(s.subrange(w, w + len) =~= payload);
}

} // verus!
