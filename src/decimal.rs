//! The decimal data type.
use vstd::prelude::*;

verus! {

/// Decimal: a 96-bit unsigned integer with a sign and a power-of-ten scale.
///
/// The value is `(-1)^sign * (hi32 * 2^64 + lo64) / 10^scale`, where `sign` is `0` or `0x80`.
#[derive(Copy, Clone, Debug, PartialEq, Eq, Structural)]
pub struct Decimal {
    pub scale: u8,
    pub sign: u8,
    pub hi32: u32,
    pub lo64: u64,
}

} // verus!
