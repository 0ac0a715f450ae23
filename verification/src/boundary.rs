//! The fixed-configuration call surface a foreign caller sees.
//!
//! Every operation here runs under one baked-in configuration:
//! little-endian byte order, fixed-width integers, 64 KiB ceiling.  A
//! caller hands in a buffer argument that is either a span of bytes or a
//! null pointer with a claimed length; a null pointer is legal only with
//! length zero, where it stands for the empty payload.  Failure carries a
//! status value; the raw foreign surface built on top of this module
//! collapses every status into its single null-pointer signal.

use vstd::prelude::*;

use crate::config::{BOUNDARY_SIZE_LIMIT, Config};
use crate::seqcodec::{
    checked_encoding, checked_exact_decoding, decode_sequence_exact, encode_sequence,
};

verus! {

/// The status of a boundary call, mirroring a C-style status code.
#[derive(Clone, Copy, Debug, PartialEq, Eq, Structural)]
pub enum BincodeError {
    Success,
    /// A required pointer was null.
    NullPointer,
    /// The payload or its encoded form was over the ceiling.
    SerializationError,
    /// The input was malformed, over the ceiling, or had trailing bytes.
    DeserializationError,
}

/// A caller's `(pointer, length)` argument, as the boundary sees it: a
/// null pointer with the length the caller claimed, or the bytes a
/// non-null pointer spans.
pub enum CallerBuffer {
    Null { len: usize },
    Bytes(Vec<u8>),
}

/// The logical payload a buffer argument denotes: a null pointer with
/// length zero denotes the empty payload (there is nothing to read), a
/// null pointer with nonzero length denotes nothing at all, and bytes
/// denote themselves.
pub open spec fn buffer_payload(buffer: CallerBuffer) -> Option<Seq<u8>> {
    match buffer {
        CallerBuffer::Null { len } => if len == 0 {
            Some(Seq::<u8>::empty())
        } else {
            None
        },
        CallerBuffer::Bytes(v) => Some(v@),
    }
}

/// The configuration every boundary operation runs under.
pub open spec fn spec_boundary_config() -> Config {
    Config {
        byte_order: crate::config::ByteOrder::LittleEndian,
        int_strategy: crate::config::IntStrategy::Fixed,
        size_limit: BOUNDARY_SIZE_LIMIT,
    }
}

/// Serializes the payload the buffer argument denotes, under the fixed
/// boundary configuration.  A null pointer with nonzero length is
/// rejected outright; a payload or encoded buffer over the 64 KiB
/// ceiling is rejected by the size checks.
pub fn boundary_serialize(input: CallerBuffer) -> (r: Result<Vec<u8>, BincodeError>)
    ensures
        match buffer_payload(input) {
            None => r == Err::<Vec<u8>, BincodeError>(BincodeError::NullPointer),
            Some(payload) => match checked_encoding(spec_boundary_config(), payload) {
                Ok(enc) => r matches Ok(v) && v@ == enc,
                Err(_) => r == Err::<Vec<u8>, BincodeError>(BincodeError::SerializationError),
            },
        },
{
    let config = Config::boundary();
    let payload = match input {
        CallerBuffer::Null { len } => {
            if len != 0 {
                return Err(BincodeError::NullPointer);
            }
            Vec::new()
        },
        CallerBuffer::Bytes(v) => v,
    };
    match encode_sequence(&config, &payload) {
        Ok(enc) => Ok(enc),
        Err(_) => Err(BincodeError::SerializationError),
    }
}

/// Deserializes the encoded buffer the buffer argument denotes, under
/// the fixed boundary configuration, insisting that decoding consume the
/// whole input.
pub fn boundary_deserialize(input: CallerBuffer) -> (r: Result<Vec<u8>, BincodeError>)
    ensures
        match buffer_payload(input) {
            None => r == Err::<Vec<u8>, BincodeError>(BincodeError::NullPointer),
            Some(encoded) => match checked_exact_decoding(spec_boundary_config(), encoded) {
                Ok(payload) => r matches Ok(v) && v@ == payload,
                Err(_) => r == Err::<Vec<u8>, BincodeError>(BincodeError::DeserializationError),
            },
        },
{
    let config = Config::boundary();
    let encoded = match input {
        CallerBuffer::Null { len } => {
            if len != 0 {
                return Err(BincodeError::NullPointer);
            }
            Vec::new()
        },
        CallerBuffer::Bytes(v) => v,
    };
    match decode_sequence_exact(&config, &encoded) {
        Ok(payload) => Ok(payload),
        Err(_) => Err(BincodeError::DeserializationError),
    }
}

/// The length a serialize call would produce for the given bytes under
/// the fixed boundary configuration: the 8-byte length field plus the
/// payload.  A null pointer yields 0, whatever length the caller
/// claimed.  This is a pure query: it computes the length without
/// allocating a result, and applies no ceiling.
pub fn boundary_serialized_length(input: &CallerBuffer) -> (r: usize)
    requires
        input matches CallerBuffer::Bytes(v) ==> v@.len() + 8 <= usize::MAX,
    ensures
        match *input {
            CallerBuffer::Null { .. } => r == 0,
            CallerBuffer::Bytes(v) => r == 8 + v@.len() && r == crate::seqcodec::sequence_encoding(
                spec_boundary_config().int_strategy,
                v@,
            ).len(),
        },
{
    match input {
        CallerBuffer::Null { .. } => 0,
        CallerBuffer::Bytes(v) => {
            proof {
                crate::intcodec::lemma_int_encoding_len(
                    spec_boundary_config().int_strategy,
                    v@.len() as u64,
                );
            }
            8 + v.len()
        },
    }
}

} // verus!
