//! Small commands offered to the host application.
use vstd::prelude::*;

verus! {

/// The sum of `a` and `b`, which must fit in an `i32`.
pub fn add_method(a: i32, b: i32) -> (r: i32)
    requires
        i32::MIN <= a + b <= i32::MAX,
    ensures
        r == a + b,
{
    a + b
}

} // verus!
