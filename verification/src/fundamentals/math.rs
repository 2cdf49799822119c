//! Arithmetic on machine integers.

use vstd::prelude::*;

verus! {

/// The sum of `a` and `b`, for operands whose sum fits in an `i32`.
pub fn add(a: i32, b: i32) -> (sum: i32)
    requires
        i32::MIN <= a + b <= i32::MAX,
    ensures
        sum == a + b,
{
    a + b
}

} // verus!
