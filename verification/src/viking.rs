//! A record type fit for use as a map key.
use vstd::prelude::*;

verus! {

/// A viking with a name and a home country.
#[derive(Debug, PartialEq, Eq, Hash)]
pub struct Viking {
    pub name: String,
    pub country: String,
}

impl Viking {
    /// A new viking with the given name and country.
    pub fn new(name: &str, country: &str) -> (r: Viking)
        ensures
            r.name@ == name@,
            r.country@ == country@,
    {
        Viking { name: name.to_owned(), country: country.to_owned() }
    }
}

} // verus!
