//! The payload types that a variant can hold.
use vstd::prelude::*;
use crate::hr::HResult;
use crate::inner::{AsInner, AsInnerMut, FromInner, IntoInner};

verus! {

/// Empty variant.
#[derive(Copy, Clone, Debug, PartialEq, Eq, Structural)]
pub struct Empty;

/// Null variant.
#[derive(Copy, Clone, Debug, PartialEq, Eq, Structural)]
pub struct Null;

/// Signed word variant.
pub type I2 = i16;

/// Signed dword variant.
pub type I4 = i32;

/// Signed byte variant.
pub type I1 = i8;

/// Unsigned byte variant.
pub type UI1 = u8;

/// Unsigned word variant.
pub type UI2 = u16;

/// Unsigned dword variant.
pub type UI4 = u32;

/// Error variant.
pub type Error = HResult;

/// Single-precision float variant, held as its IEEE 754 bits.
#[derive(Copy, Clone, Debug, PartialEq, Eq, Structural)]
pub struct R4(pub u32);

/// Double-precision float variant, held as its IEEE 754 bits.
#[derive(Copy, Clone, Debug, PartialEq, Eq, Structural)]
pub struct R8(pub u64);

/// Unspecified integer.
#[derive(Copy, Clone, Debug, PartialEq, Eq, Structural)]
pub struct Int(i32);

/// Unspecified unsigned integer.
#[derive(Copy, Clone, Debug, PartialEq, Eq, Structural)]
pub struct UInt(u32);

impl View for Int {
    type V = i32;

    closed spec fn view(&self) -> i32 {
        self.0
    }
}

impl View for UInt {
    type V = u32;

    closed spec fn view(&self) -> u32 {
        self.0
    }
}

impl AsInner<i32> for Int {
    fn as_inner(&self) -> &i32 {
        &self.0
    }
}

impl AsInnerMut<i32> for Int {
    fn as_inner_mut(&mut self) -> &mut i32 {
        &mut self.0
    }
}

impl IntoInner<i32> for Int {
    fn into_inner(self) -> i32 {
        self.0
    }
}

impl FromInner<i32> for Int {
    fn from_inner(inner: i32) -> Int {
        Int(inner)
    }
}

impl AsInner<u32> for UInt {
    fn as_inner(&self) -> &u32 {
        &self.0
    }
}

impl AsInnerMut<u32> for UInt {
    fn as_inner_mut(&mut self) -> &mut u32 {
        &mut self.0
    }
}

impl IntoInner<u32> for UInt {
    fn into_inner(self) -> u32 {
        self.0
    }
}

impl FromInner<u32> for UInt {
    fn from_inner(inner: u32) -> UInt {
        UInt(inner)
    }
}

} // verus!
