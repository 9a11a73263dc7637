//! Speakers that greet and introduce themselves.
use vstd::prelude::*;

verus! {

/// A speaker that can greet and say something of itself.
pub trait Hello {
    /// The characters of the greeting.
    spec fn hi_spec(&self) -> Seq<char>;

    /// What the speaker says of itself.
    spec fn something_spec(&self) -> Seq<char>;

    /// The speaker's greeting.
    fn say_hi(&self) -> (r: String)
        ensures
            r@ == self.hi_spec(),
    ;

    /// The speaker's word about itself.
    fn say_something(&self) -> (r: String)
        ensures
            r@ == self.something_spec(),
    ;
}

/// A student.
pub struct Student {}

impl Hello for Student {
    open spec fn hi_spec(&self) -> Seq<char> {
        "hi"@
    }

    open spec fn something_spec(&self) -> Seq<char> {
        "I'm a good student"@
    }

    fn say_hi(&self) -> (r: String) {
        "hi".to_owned()
    }

    fn say_something(&self) -> (r: String) {
        "I'm a good student".to_owned()
    }
}

/// A teacher.
pub struct Teacher {}

impl Hello for Teacher {
    open spec fn hi_spec(&self) -> Seq<char> {
        "Hi, I'm your new teacher"@
    }

    open spec fn something_spec(&self) -> Seq<char> {
        "I'm not a bad teacher"@
    }

    fn say_hi(&self) -> (r: String) {
        "Hi, I'm your new teacher".to_owned()
    }

    fn say_something(&self) -> (r: String) {
        "I'm not a bad teacher".to_owned()
    }
}

} // verus!
