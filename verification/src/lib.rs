//! A small palette and toy-restaurant library: primary and secondary
//! color tags with a verified mixing rule, and a facade over two
//! restaurant stubs that returns a fixed confirmation.
pub mod arith;
pub mod back_of_house;
pub mod front_of_house;
pub mod geometry;
pub mod hello;
pub mod kinds;
pub mod message;
pub mod post;
pub mod text;
pub mod utils;
pub mod viking;

pub use kinds::PrimaryColor;
pub use kinds::SecondaryColor;
pub use utils::mix;

use vstd::prelude::*;

verus! {

/// Seats the guest, has the order cooked, and returns the fixed
/// confirmation text, whatever the two stubs did.
pub fn eat_at_restaurant() -> (r: String)
    ensures
        r@ == "yummy yummy!"@,
{
    front_of_house::hosting::add_to_waitlist();

    back_of_house::cook_order();

    "yummy yummy!".to_owned()
}

/// The facade is deterministic: two confirmations, such as the results
/// of two repeated calls of `eat_at_restaurant`, read the same.
pub proof fn lemma_eat_at_restaurant_repeatable(r1: Seq<char>, r2: Seq<char>)
    requires
        r1 == "yummy yummy!"@,
        r2 == "yummy yummy!"@,
    ensures
        r1 == r2,
{
}

} // verus!
