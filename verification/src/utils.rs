//! The mixing rule of the palette.
use vstd::prelude::*;
use vstd::pervasive::unreached;
use crate::kinds::PrimaryColor;
use crate::kinds::SecondaryColor;

verus! {

/// The standard color-theory mixing table on distinct primary colors:
/// red and yellow give orange, yellow and blue give green, and red and
/// blue give purple, in either order.
pub open spec fn mix_spec(a: PrimaryColor, b: PrimaryColor) -> SecondaryColor
    recommends
        a != b,
{
    if (a is Red && b is Yellow) || (a is Yellow && b is Red) {
        SecondaryColor::Orange
    } else if (a is Yellow && b is Blue) || (a is Blue && b is Yellow) {
        SecondaryColor::Green
    } else {
        SecondaryColor::Purple
    }
}

/// Mixes two distinct primary colors into the secondary color that the
/// color-theory table gives. Mixing a primary color with itself is left
/// undefined, so callers must pass two distinct colors.
pub fn mix(c1: PrimaryColor, c2: PrimaryColor) -> (r: SecondaryColor)
    requires
        c1 != c2,
    ensures
        r == mix_spec(c1, c2),
{
    match (c1, c2) {
        (PrimaryColor::Red, PrimaryColor::Yellow) => SecondaryColor::Orange,
        (PrimaryColor::Yellow, PrimaryColor::Red) => SecondaryColor::Orange,
        (PrimaryColor::Yellow, PrimaryColor::Blue) => SecondaryColor::Green,
        (PrimaryColor::Blue, PrimaryColor::Yellow) => SecondaryColor::Green,
        (PrimaryColor::Red, PrimaryColor::Blue) => SecondaryColor::Purple,
        (PrimaryColor::Blue, PrimaryColor::Red) => SecondaryColor::Purple,
        _ => unreached(),
    }
}

/// Mixing is commutative: for any ordering of two distinct primary
/// colors, the mixed secondary color is the same.
pub proof fn lemma_mix_commutative(a: PrimaryColor, b: PrimaryColor)
    requires
        a != b,
    ensures
        mix_spec(a, b) == mix_spec(b, a),
{
}

/// Mixing is deterministic: two results of mixing the same pair of
/// distinct primary colors, such as the results of two repeated calls
/// of `mix`, are equal.
pub proof fn lemma_mix_repeatable(
    a: PrimaryColor,
    b: PrimaryColor,
    r1: SecondaryColor,
    r2: SecondaryColor,
)
    requires
        a != b,
        r1 == mix_spec(a, b),
        r2 == mix_spec(a, b),
    ensures
        r1 == r2,
{
}

} // verus!
