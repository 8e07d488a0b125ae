//! The 16-bit boolean.
use vstd::prelude::*;
use crate::inner::{AsInner, AsInnerMut, FromInner, IntoInner};

verus! {

/// A 16-bit Boolean value.
///
/// All bits set means true and all bits clear means false. Any nonzero value reads as true.
#[derive(Copy, Clone, Debug, PartialEq, Eq, Structural)]
pub struct Bool(u16);

impl View for Bool {
    type V = bool;

    closed spec fn view(&self) -> bool {
        self.0 != 0
    }
}

impl Bool {
    /// The bits that stand for `b`.
    pub closed spec fn spec_bits(self) -> u16 {
        self.0
    }

    pub open spec fn spec_from_bool(b: bool) -> u16 {
        if b { 0xFFFF } else { 0 }
    }
}

impl From<bool> for Bool {
    fn from(val: bool) -> (r: Bool)
        ensures
            r.spec_bits() == Bool::spec_from_bool(val),
            r@ == val,
    {
        Bool(if val { 0xFFFF } else { 0 })
    }
}

impl vstd::std_specs::convert::FromSpecImpl<bool> for Bool {
    open spec fn obeys_from_spec() -> bool {
        true
    }

    closed spec fn from_spec(v: bool) -> Bool {
        Bool(Bool::spec_from_bool(v))
    }
}

impl From<Bool> for bool {
    fn from(val: Bool) -> (r: bool)
        ensures
            r == val@,
    {
        val.0 != 0
    }
}

impl vstd::std_specs::convert::FromSpecImpl<Bool> for bool {
    open spec fn obeys_from_spec() -> bool {
        true
    }

    open spec fn from_spec(v: Bool) -> bool {
        v@
    }
}

impl Default for Bool {
    fn default() -> (r: Bool)
        ensures
            r.spec_bits() == 0,
            !r@,
    {
        Bool(0)
    }
}

impl AsInner<u16> for Bool {
    fn as_inner(&self) -> &u16 {
        &self.0
    }
}

impl AsInnerMut<u16> for Bool {
    fn as_inner_mut(&mut self) -> &mut u16 {
        &mut self.0
    }
}

impl IntoInner<u16> for Bool {
    fn into_inner(self) -> u16 {
        self.0
    }
}

impl FromInner<u16> for Bool {
    fn from_inner(inner: u16) -> Bool {
        Bool(inner)
    }
}

} // verus!
