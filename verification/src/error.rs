//! What can go wrong between a configuration and a wallpaper.

use vstd::prelude::*;

verus! {

/// The failures that this library reports. None of them is recovered from:
/// each goes to the caller as it is.
#[derive(Clone, Copy, Debug, PartialEq, Eq, Structural)]
pub enum Error {
    /// The configuration is at fault: a condition names a light state that
    /// does not exist.
    UnknownLight,
    /// The configuration has a gap: no wallpaper's condition is met at this
    /// moment and there is no fallback.
    NoMatch,
}

impl Error {
    /// The words for this failure.
    pub open spec fn message_chars(self) -> Seq<char> {
        match self {
            Error::UnknownLight => "not the name of a light"@,
            Error::NoMatch => "no configured wallpaper"@,
        }
    }

    /// The words for this failure.
    pub fn message(self) -> (words: &'static str)
        ensures
            words@ == self.message_chars(),
    {
        match self {
            Error::UnknownLight => "not the name of a light",
            Error::NoMatch => "no configured wallpaper",
        }
    }
}

} // verus!
