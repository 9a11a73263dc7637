//! The two closed sets of color tags that the palette works with.
use vstd::prelude::*;

verus! {

/// A primary color: one of the three base tags that can be mixed.
pub enum PrimaryColor {
    Red,
    Yellow,
    Blue,
}

/// A secondary color: the result of mixing two distinct primary colors.
#[derive(Debug, PartialEq, Eq, Structural)]
pub enum SecondaryColor {
    Orange,
    Green,
    Purple,
}

} // verus!
