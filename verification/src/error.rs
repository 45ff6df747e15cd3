//! What can go wrong while the application handles an event or draws a frame.

use crate::issue::state::PageError;
use crate::store::{Fault, StoreError};
use vstd::prelude::*;
use vstd::string::*;

verus! {

/// A failure, as contracts speak of it.
pub enum Failure {
    /// A read of the state store failed for the given path.
    Store(Fault, Seq<char>),
    /// The page number in the state store names no page.
    Page,
}

/// A failure of the application.
#[derive(Debug, PartialEq, Eq)]
pub enum Error {
    Store(StoreError),
    Page(PageError),
}

impl Error {
    /// The failure that the error reports.
    pub open spec fn failure(&self) -> Failure {
        match self {
            Error::Store(error) => Failure::Store(error.fault(), error.path()),
            Error::Page(_) => Failure::Page,
        }
    }

    /// The message for the user.
    pub fn to_string(&self) -> (message: String)
        ensures
            match self {
                Error::Store(StoreError::InvalidType(key)) => message@ == "Invalid type requested: "@
                    + key@,
                Error::Store(StoreError::NotFound(key)) => message@ == "Property not found: "@ + key@,
                Error::Page(PageError::InvalidIndex(text)) => message@ == text@,
            },
    {
        match self {
            Error::Store(error) => error.to_string(),
            Error::Page(error) => error.to_string(),
        }
    }
}

} // verus!
