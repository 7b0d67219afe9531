//! The ways in which asking a backend for its current transform can fail.

use vstd::prelude::*;

verus! {

/// Why no current transform could be told.
#[derive(Clone, Copy, Debug, PartialEq, Eq, Structural)]
pub enum QueryError {
    /// The compositor lists no output with the name of the display.
    NoSuchDisplay,
    /// No line of the X server's status text describes the display.
    NoMatch,
    /// The name of the display made a pattern that could not be compiled.
    InvalidPattern,
}

/// The text that describes `e`.
pub open spec fn message_of(e: QueryError) -> Seq<char> {
    match e {
        QueryError::NoSuchDisplay => "no match"@,
        QueryError::NoMatch => "no match"@,
        QueryError::InvalidPattern => "invalid pattern"@,
    }
}

impl QueryError {
    /// A short description for a diagnostic.
    pub fn message(&self) -> (text: String)
        ensures
            text@ == message_of(*self),
    {
        match self {
            QueryError::NoSuchDisplay => "no match".to_owned(),
            QueryError::NoMatch => "no match".to_owned(),
            QueryError::InvalidPattern => "invalid pattern".to_owned(),
        }
    }
}

} // verus!
