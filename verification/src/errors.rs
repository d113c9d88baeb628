//! Errors surfaced by the library.
//!
//! All failures are value-returned: nothing here panics. `QueueIsFull` is
//! recoverable backpressure (reject the unit of work, or retry later), the
//! other variants are ordinary domain failures.

use vstd::prelude::*;

verus! {

/// The error taxonomy of the library.
#[derive(Clone, Copy, Debug, PartialEq, Eq)]
pub enum Error {
    /// The given value isn't a valid id.
    NotAnId,
    /// The requested person doesn't exist.
    PersonNotFound,
    /// At least one monitored queue reported full; the caller should reject
    /// or defer the unit of work.
    QueueIsFull,
}

impl Error {
    /// A human-readable description of the error.
    pub fn description(&self) -> (r: &'static str)
        ensures
            *self is NotAnId ==> r@ == "the given value isn't a valid id"@,
            *self is PersonNotFound ==> r@ == "the requested person doesn't exist"@,
            *self is QueueIsFull ==> r@ == "a worker queue is full"@,
    {
        match self {
            Error::NotAnId => "the given value isn't a valid id",
            Error::PersonNotFound => "the requested person doesn't exist",
            Error::QueueIsFull => "a worker queue is full",
        }
    }
}

} // verus!
