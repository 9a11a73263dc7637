//! Small verified helpers on numbers.
use vstd::prelude::*;

verus! {

/// Adds one to the number inside the option; an empty option stays
/// empty.
pub fn plus_one(x: Option<i32>) -> (r: Option<i32>)
    requires
        x matches Some(i) ==> i < i32::MAX,
    ensures
        x is None ==> r is None,
        x matches Some(i) ==> r == Some((i + 1) as i32),
{
    match x {
        None => None,
        Some(i) => Some(i + 1),
    }
}

/// The product of the two numbers.
pub fn multiply(a: u64, b: u64) -> (r: u64)
    requires
        a * b <= u64::MAX,
    ensures
        r == a * b,
{
    a * b
}

} // verus!
