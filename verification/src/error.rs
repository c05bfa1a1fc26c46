//! Error type for failures reported by the native engine.

use vstd::prelude::*;

use crate::ua::data_types::StatusCode;

verus! {

/// A failure reported by the native engine, carrying the status code that
/// caused it.
#[derive(Clone, Copy, PartialEq, Eq, Structural, Debug)]
pub struct Error {
    status: StatusCode,
}

impl Error {
    /// The status code that caused this error.
    pub closed spec fn spec_status(&self) -> StatusCode {
        self.status
    }

    /// Wraps a status code that is not good into an error.
    pub fn new(status: StatusCode) -> (r: Self)
        ensures
            r.spec_status() == status,
    {
        Error { status }
    }

    /// The status code that caused this error.
    pub fn status(&self) -> (r: StatusCode)
        ensures
            r == self.spec_status(),
    {
        self.status
    }

    /// Translates a status code into success or failure: `Ok` exactly when
    /// the code's severity class is good, and otherwise an error carrying the
    /// code.
    pub fn verify_good(status: &StatusCode) -> (r: Result<(), Error>)
        ensures
            r is Ok <==> status.spec_is_good(),
            r matches Err(e) ==> e.spec_status() == *status,
    {
        if status.is_good() {
            Ok(())
        } else {
            Err(Error::new(*status))
        }
    }
}

} // verus!
