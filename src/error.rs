//! The ways a request to the catalog core can fail.
use vstd::prelude::*;

verus! {

#[derive(Clone, Copy, Debug, PartialEq, Eq, Structural)]
pub enum Error {
    /// The caller's credentials are not valid.
    Unauthorized,
    /// The caller may not see what it asked for.
    Forbidden,
    /// The request names no filter, or a value fails basic shape checks.
    MalformedRequest,
    /// No lot has the requested id.
    NotFound,
    /// The catalog store could not be reached or a query failed.
    StoreUnavailable,
}

impl Error {
    /// The HTTP status a failure of this kind is answered with.
    pub fn status_code(&self) -> (r: u16)
        ensures
            r == match *self {
                Error::Unauthorized => 401u16,
                Error::Forbidden => 403u16,
                Error::MalformedRequest => 400u16,
                Error::NotFound => 404u16,
                Error::StoreUnavailable => 500u16,
            },
    {
        match self {
            Error::Unauthorized => 401,
            Error::Forbidden => 403,
            Error::MalformedRequest => 400,
            Error::NotFound => 404,
            Error::StoreUnavailable => 500,
        }
    }

    /// The short name the error is reported under.
    pub fn message(&self) -> (r: &'static str)
        ensures
            r@ == match *self {
                Error::Unauthorized => "Unauthorized"@,
                Error::Forbidden => "Forbidden"@,
                Error::MalformedRequest => "MalformedRequest"@,
                Error::NotFound => "NotFound"@,
                Error::StoreUnavailable => "Database Error"@,
            },
    {
        match self {
            Error::Unauthorized => "Unauthorized",
            Error::Forbidden => "Forbidden",
            Error::MalformedRequest => "MalformedRequest",
            Error::NotFound => "NotFound",
            Error::StoreUnavailable => "Database Error",
        }
    }
}

} // verus!
