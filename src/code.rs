//! Common result codes.
use vstd::prelude::*;

verus! {

pub const S_OK: u32 = 0x0000_0000;
pub const E_NOTIMPL: u32 = 0x8000_4001;
pub const E_NOINTERFACE: u32 = 0x8000_4002;
pub const E_POINTER: u32 = 0x8000_4003;
pub const E_ABORT: u32 = 0x8000_4004;
pub const E_FAIL: u32 = 0x8000_4005;
pub const E_UNEXPECTED: u32 = 0x8000_FFFF;
pub const E_ACCESSDENIED: u32 = 0x8007_0005;
pub const E_HANDLE: u32 = 0x8007_0006;
pub const E_OUTOFMEMORY: u32 = 0x8007_000E;
pub const E_INVALIDARG: u32 = 0x8007_0057;

} // verus!
