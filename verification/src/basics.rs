//! Small verified arithmetic demonstrations: plain return values and
//! unit-returning functions.

use vstd::prelude::*;

verus! {

/// Returns the constant five.
pub fn five() -> (r: i64)
    ensures
        r == 5,
{
    5
}

/// Adds one to `x`.
pub fn plus_one(x: i32) -> (r: i32)
    requires
        x < i32::MAX,
    ensures
        r == x + 1,
{
    x + 1
}

/// Computes `x + 1` and discards it; the call has no visible effect.
pub fn plus_one_unit(x: i32)
    requires
        x < i32::MAX,
{
    let _sum: i32 = x + 1;
}

} // verus!
