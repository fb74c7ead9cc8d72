//! The failures this crate surfaces to its callers.

use vstd::prelude::*;

verus! {

/// Why an operation failed.
///
/// Every failure is surfaced to the immediate caller exactly once; nothing is
/// retried or swallowed.
#[derive(Debug)]
pub enum Error {
    /// The caller supplied a number that is not an acceptable signal number.
    /// Carries the offending number.
    InvalidArgument(i32),
    /// The kernel call itself failed. Carries the platform error code and its
    /// message verbatim.
    Os { code: i32, message: String },
}

impl Error {
    /// Whether this failure reports an unacceptable signal number.
    pub fn is_invalid_argument(&self) -> (r: bool)
        ensures
            r == (self is InvalidArgument),
    {
        match self {
            Error::InvalidArgument(_) => true,
            Error::Os { .. } => false,
        }
    }

    /// The offending number of an `InvalidArgument` failure.
    pub fn invalid_number(&self) -> (r: Option<i32>)
        ensures
            self matches Error::InvalidArgument(v) ==> r == Some(*v),
            self is Os ==> r is None,
    {
        match self {
            Error::InvalidArgument(v) => Some(*v),
            Error::Os { .. } => None,
        }
    }
}

} // verus!
