//! Variant type tags.
use vstd::prelude::*;

verus! {

pub const VT_EMPTY: u16 = 0;
pub const VT_NULL: u16 = 1;
pub const VT_I2: u16 = 2;
pub const VT_I4: u16 = 3;
pub const VT_R4: u16 = 4;
pub const VT_R8: u16 = 5;
pub const VT_CY: u16 = 6;
pub const VT_DATE: u16 = 7;
pub const VT_BSTR: u16 = 8;
/// Reserved: no payload type of this library has this tag.
pub const VT_DISPATCH: u16 = 9;
pub const VT_ERROR: u16 = 10;
pub const VT_BOOL: u16 = 11;
/// Reserved: no payload type of this library has this tag.
pub const VT_UNKNOWN: u16 = 13;
pub const VT_DECIMAL: u16 = 14;
pub const VT_I1: u16 = 16;
pub const VT_UI1: u16 = 17;
pub const VT_UI2: u16 = 18;
pub const VT_UI4: u16 = 19;
pub const VT_INT: u16 = 22;
pub const VT_UINT: u16 = 23;
/// Reserved: no payload type of this library has this tag.
pub const VT_RECORD: u16 = 36;

/// The bit that marks a by-reference payload.
pub const VT_BYREF: u16 = 0x4000;

pub const VT_BYREF_I2: u16 = 0x4002;
pub const VT_BYREF_I4: u16 = 0x4003;
pub const VT_BYREF_R4: u16 = 0x4004;
pub const VT_BYREF_R8: u16 = 0x4005;
pub const VT_BYREF_CY: u16 = 0x4006;
pub const VT_BYREF_DATE: u16 = 0x4007;
pub const VT_BYREF_BSTR: u16 = 0x4008;
/// Reserved: no payload type of this library has this tag.
pub const VT_BYREF_DISPATCH: u16 = 0x4009;
pub const VT_BYREF_ERROR: u16 = 0x400A;
pub const VT_BYREF_BOOL: u16 = 0x400B;
/// Reserved: no payload type of this library has this tag.
pub const VT_BYREF_VARIANT: u16 = 0x400C;
/// Reserved: no payload type of this library has this tag.
pub const VT_BYREF_UNKNOWN: u16 = 0x400D;
pub const VT_BYREF_DECIMAL: u16 = 0x400E;
pub const VT_BYREF_I1: u16 = 0x4010;
pub const VT_BYREF_UI1: u16 = 0x4011;
pub const VT_BYREF_UI2: u16 = 0x4012;
pub const VT_BYREF_UI4: u16 = 0x4013;
pub const VT_BYREF_INT: u16 = 0x4016;
pub const VT_BYREF_UINT: u16 = 0x4017;
/// Reserved: no payload type of this library has this tag.
pub const VT_BYREF_RECORD: u16 = 0x4024;

} // verus!
