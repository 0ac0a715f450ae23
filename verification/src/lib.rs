//! A compact binary codec for byte sequences, with a verified wire format.
//!
//! A payload (an arbitrary byte sequence) is encoded as a length field
//! followed by the payload bytes verbatim.  The length field is the
//! little-endian encoding of the payload's length as an unsigned 64-bit
//! quantity, under one of two interchangeable strategies: fixed-width
//! (always 8 bytes) or variable-width (marker-prefixed, 1 to 9 bytes).
//! A configurable size ceiling is enforced on both the logical payload
//! and its encoded form, and decoding insists on consuming its whole
//! input.

pub mod boundary;
pub mod config;
pub mod intcodec;
pub mod seqcodec;

pub use boundary::BincodeError;
pub use boundary::CallerBuffer;
pub use boundary::boundary_deserialize;
pub use boundary::boundary_serialize;
pub use boundary::boundary_serialized_length;
pub use config::ByteOrder;
pub use config::Config;
pub use config::IntStrategy;
pub use seqcodec::CodecError;
pub use seqcodec::decode_sequence;
pub use seqcodec::decode_sequence_exact;
pub use seqcodec::encode_sequence;
