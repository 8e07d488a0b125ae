//! The date data type.
use vstd::prelude::*;

verus! {

/// Date: the IEEE 754 double-precision bits of a day count, whose whole part counts days
/// from 30 December 1899 and whose fraction is the time of day.
#[derive(Copy, Clone, Debug, PartialEq, Eq, Structural)]
pub struct Date(pub u64);

} // verus!
