//! Seating the guests.
use vstd::prelude::*;

verus! {

/// Puts the guest on the waitlist. A placeholder with no observable
/// state, so there is nothing to promise of it.
pub fn add_to_waitlist() {
}

/// Seats the guest and returns the fixed confirmation text.
pub fn seat_at_table() -> (r: String)
    ensures
        r@ == "sit down please"@,
{
    "sit down please".to_owned()
}

/// Seating is deterministic: two seating confirmations, such as the
/// results of two repeated calls of `seat_at_table`, read the same.
pub proof fn lemma_seat_at_table_repeatable(r1: Seq<char>, r2: Seq<char>)
    requires
        r1 == "sit down please"@,
        r2 == "sit down please"@,
    ensures
        r1 == r2,
{
}

} // verus!
