//! The recoverable failures that the library reports.

use std::collections::TryReserveError;
use vstd::prelude::*;

verus! {

/// A failure that a caller can recover from.
#[derive(Debug, Clone, PartialEq, Eq)]
pub enum Error {
    /// The shaping engine could not allocate memory.
    NoMemory,
    /// The text is not the name of a tag; the text is kept.
    InvalidTag(String),
    /// The text is not a feature setting; the text is kept.
    InvalidFeature(String),
}

impl Error {
    /// The text that could not be parsed, where the failure is a parse
    /// failure.
    pub open spec fn input(&self) -> Option<Seq<char>> {
        match self {
            Error::NoMemory => None,
            Error::InvalidTag(s) => Some(s@),
            Error::InvalidFeature(s) => Some(s@),
        }
    }

    /// What a request for memory came to: nothing to report where the
    /// allocator granted it, `NoMemory` where it did not.
    pub fn from_reserve(outcome: Result<(), TryReserveError>) -> (result: Result<(), Error>)
        ensures
            outcome is Ok ==> result == Ok::<(), Error>(()),
            outcome is Err ==> result == Err::<(), Error>(Error::NoMemory),
    {
        match outcome {
            Ok(()) => Ok(()),
            Err(_) => Err(Error::NoMemory),
        }
    }

    /// A short description of the failure, for a person to read.
    pub fn message(&self) -> (text: String)
        ensures
            text@ == match self {
                Error::NoMemory => "No Memory"@,
                Error::InvalidTag(s) => "Invalid Tag: "@ + s@,
                Error::InvalidFeature(s) => "Invalid Feature: "@ + s@,
            },
    {
        match self {
            Error::NoMemory => "No Memory".to_owned(),
            Error::InvalidTag(s) => "Invalid Tag: ".to_owned().concat(s.as_str()),
            Error::InvalidFeature(s) => "Invalid Feature: ".to_owned().concat(s.as_str()),
        }
    }
}

} // verus!
