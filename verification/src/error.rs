//! The error reported by every decoding step.

use vstd::prelude::*;

verus! {

/// Why a decoding step failed.
#[derive(Debug)]
pub enum Error {
    /// The bytes do not have the shape that the format requires.
    InvalidData(String),
}

impl Error {
    /// The text carried by the error.
    pub open spec fn text(self) -> Seq<char> {
        match self {
            Error::InvalidData(message) => message@,
        }
    }

    /// The text carried by the error.
    pub fn message(&self) -> (r: &str)
        ensures
            r@ == self.text(),
    {
        match self {
            Error::InvalidData(message) => message.as_str(),
        }
    }
}

/// An `InvalidData` error that carries `message`.
pub fn invalid_data(message: &str) -> (e: Error)
    ensures
        e is InvalidData,
        e.text() == message@,
{
    Error::InvalidData(message.to_owned())
}

} // verus!
