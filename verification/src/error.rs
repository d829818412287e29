//! The error type shared across the crate.

use vstd::prelude::*;

verus! {

/// An error carrying a human-readable description.
///
/// The description, if not otherwise handled, is what the user of the
/// program sees, so it should be clear and mostly self-contained.  A
/// value is abstracted by its description: the view of an `Error` is the
/// character sequence of its message.
#[derive(Debug)]
pub struct Error {
    description: String,
}

impl View for Error {
    type V = Seq<char>;

    closed spec fn view(&self) -> Seq<char> {
        self.description@
    }
}

impl Error {
    /// Wrap a description into an error.
    pub fn new(description: &str) -> (r: Self)
        ensures
            r@ == description@,
    {
        Error { description: description.to_owned() }
    }

    /// The human-readable description of this error.
    pub fn description(&self) -> (r: &str)
        ensures
            r@ == self@,
    {
        self.description.as_str()
    }
}

} // verus!
