//! The kitchen side of the toy restaurant.
use vstd::prelude::*;

verus! {

/// Cooks the order. A placeholder for an internal side effect that is
/// not observable here, so there is nothing to promise of it.
pub fn cook_order() {
}

} // verus!
