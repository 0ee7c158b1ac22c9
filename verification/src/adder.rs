//! Adding a constant to a machine integer.

use vstd::prelude::*;

verus! {

/// Returns `a + 2`.
///
/// The sum has to fit in an `i32`, so the two largest values are left out.
pub fn add_two(a: i32) -> (sum: i32)
    requires
        a + 2 <= i32::MAX,
    ensures
        sum == a + 2,
{
    a + 2
}

} // verus!
