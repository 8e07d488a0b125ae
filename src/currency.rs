//! The currency data type.
use vstd::prelude::*;
use crate::inner::{AsInner, AsInnerMut, FromInner, IntoInner};

verus! {

/// Currency: a signed 64-bit count of ten-thousandths of a unit.
#[derive(Copy, Clone, Debug, PartialEq, Eq, Structural)]
pub struct Currency(i64);

impl View for Currency {
    type V = i64;

    closed spec fn view(&self) -> i64 {
        self.0
    }
}

impl From<i64> for Currency {
    fn from(cy: i64) -> (r: Currency)
        ensures
            r@ == cy,
    {
        Currency(cy)
    }
}

impl vstd::std_specs::convert::FromSpecImpl<i64> for Currency {
    open spec fn obeys_from_spec() -> bool {
        true
    }

    closed spec fn from_spec(v: i64) -> Currency {
        Currency(v)
    }
}

impl From<Currency> for i64 {
    fn from(cy: Currency) -> (r: i64)
        ensures
            r == cy@,
    {
        cy.0
    }
}

impl vstd::std_specs::convert::FromSpecImpl<Currency> for i64 {
    open spec fn obeys_from_spec() -> bool {
        true
    }

    open spec fn from_spec(v: Currency) -> i64 {
        v@
    }
}

impl AsInner<i64> for Currency {
    fn as_inner(&self) -> &i64 {
        &self.0
    }
}

impl AsInnerMut<i64> for Currency {
    fn as_inner_mut(&mut self) -> &mut i64 {
        &mut self.0
    }
}

impl IntoInner<i64> for Currency {
    fn into_inner(self) -> i64 {
        self.0
    }
}

impl FromInner<i64> for Currency {
    fn from_inner(inner: i64) -> Currency {
        Currency(inner)
    }
}

} // verus!
