//! Wait timeouts in milliseconds.
use vstd::prelude::*;

verus! {

/// Waits forever.
pub const INFINITE: i32 = -1;

/// Does not wait.
pub const NO_WAIT: i32 = 0;

/// A timeout in milliseconds; `INFINITE` waits forever.
#[derive(Copy, Clone, Debug, PartialEq, Eq, Structural)]
pub struct Timeout(i32);

impl View for Timeout {
    type V = i32;

    closed spec fn view(&self) -> i32 {
        self.0
    }
}

impl From<i32> for Timeout {
    fn from(timeout: i32) -> (r: Timeout)
        ensures
            r@ == timeout,
    {
        Timeout(timeout)
    }
}

impl vstd::std_specs::convert::FromSpecImpl<i32> for Timeout {
    open spec fn obeys_from_spec() -> bool {
        true
    }

    closed spec fn from_spec(v: i32) -> Timeout {
        Timeout(v)
    }
}

impl From<Timeout> for i32 {
    fn from(timeout: Timeout) -> (r: i32)
        ensures
            r == timeout@,
    {
        timeout.0
    }
}

impl vstd::std_specs::convert::FromSpecImpl<Timeout> for i32 {
    open spec fn obeys_from_spec() -> bool {
        true
    }

    open spec fn from_spec(v: Timeout) -> i32 {
        v@
    }
}

} // verus!
