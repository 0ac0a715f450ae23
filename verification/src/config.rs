//! The immutable configuration that encode and decode must agree on.

use vstd::prelude::*;

verus! {

/// The byte order of every multi-byte integer in the wire format.  The
/// format fixes this to little-endian; a native byte order is never used.
#[derive(Clone, Copy, Debug, PartialEq, Eq, Structural)]
pub enum ByteOrder {
    LittleEndian,
}

/// How an unsigned 64-bit integer is laid out in the wire format.
#[derive(Clone, Copy, Debug, PartialEq, Eq, Structural)]
pub enum IntStrategy {
    /// Always 8 bytes, little-endian, regardless of value.
    Fixed,
    /// 1 byte for values up to 250; otherwise a marker byte followed by
    /// 2, 4 or 8 bytes little-endian.
    Variable,
}

/// The size ceiling baked into the fixed boundary call surface: 64 KiB.
pub const BOUNDARY_SIZE_LIMIT: u64 = 65536;

/// An immutable bundle selecting byte order, integer strategy and size
/// ceiling.  The same value must be used for encode and decode of a given
/// buffer; mixing strategies across the two is a caller error that the
/// codec cannot detect.
#[derive(Clone, Copy, Debug, PartialEq, Eq, Structural)]
pub struct Config {
    pub byte_order: ByteOrder,
    pub int_strategy: IntStrategy,
    /// Maximum number of bytes the logical payload or its encoded form may
    /// occupy; the two are checked independently.
    pub size_limit: u64,
}

impl Config {
    /// A configuration with the given strategy and size ceiling; the byte
    /// order is always little-endian.
    pub fn new(int_strategy: IntStrategy, size_limit: u64) -> (c: Config)
        ensures
            c == (Config { byte_order: ByteOrder::LittleEndian, int_strategy, size_limit }),
    {
        Config { byte_order: ByteOrder::LittleEndian, int_strategy, size_limit }
    }

    /// The configuration the boundary call surface is fixed to:
    /// little-endian, fixed-width integers, 64 KiB ceiling.
    pub fn boundary() -> (c: Config)
        ensures
            c == (Config {
                byte_order: ByteOrder::LittleEndian,
                int_strategy: IntStrategy::Fixed,
                size_limit: BOUNDARY_SIZE_LIMIT,
            }),
    {
        Config {
            byte_order: ByteOrder::LittleEndian,
            int_strategy: IntStrategy::Fixed,
            size_limit: BOUNDARY_SIZE_LIMIT,
        }
    }
}

} // verus!
