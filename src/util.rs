//! Small shared types.

use vstd::prelude::*;

verus! {

/// A marker that only this library's request types carry.
pub trait Sealed {}

/// A string taken as it arrived, whether it holds plain text or JSON text.
pub struct UnstructuredString(String);

impl UnstructuredString {
    pub fn new(s: String) -> (r: UnstructuredString)
        ensures
            r@ == s@,
    {
        UnstructuredString(s)
    }

    /// The text.
    pub fn as_str(&self) -> (r: &str)
        ensures
            r@ == self@,
    {
        self.0.as_str()
    }

    /// The text, taken out.
    pub fn into_string(self) -> (r: String)
        ensures
            r@ == self@,
    {
        self.0
    }
}

impl View for UnstructuredString {
    type V = Seq<char>;

    closed spec fn view(&self) -> Seq<char> {
        self.0@
    }
}

impl Sealed for UnstructuredString {}

} // verus!
