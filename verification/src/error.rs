//! The error taxonomy of the update pipeline.

use vstd::prelude::*;

verus! {

/// Everything that can go wrong while resolving, downloading or
/// installing a release. Every failure is surfaced to the caller; nothing
/// is retried internally.
#[derive(Debug)]
pub enum Error {
    /// Filtering left no release to choose from.
    NoRelease,
    /// A download response had a non-success HTTP status.
    Http(String),
    /// A page request to the release backend failed.
    Backend(String),
    /// A filesystem operation failed; the payload names the operation.
    Io(String),
}

impl Clone for Error {
    fn clone(&self) -> (r: Self)
        ensures
            r == *self,
    {
        match self {
            Error::NoRelease => Error::NoRelease,
            Error::Http(c) => Error::Http(c.clone()),
            Error::Backend(m) => Error::Backend(m.clone()),
            Error::Io(m) => Error::Io(m.clone()),
        }
    }
}

impl Error {
    /// The error reported when no release passes the selection criteria.
    pub fn no_release() -> (r: Self)
        ensures
            r is NoRelease,
    {
        Error::NoRelease
    }

    /// The error reported for a non-success download status.
    pub fn http(code: &str) -> (r: Self)
        ensures
            r matches Error::Http(c) && c@ == code@,
    {
        Error::Http(code.to_owned())
    }
}

} // verus!
