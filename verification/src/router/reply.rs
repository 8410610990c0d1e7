//! Replies of the federation routes: a success and a refusal.

use vstd::prelude::*;

verus! {

/// A successful reply carrying a response body.
#[derive(Debug)]
pub struct MApiReply<T>(pub T);

/// A refused request, carrying why.
#[derive(Debug)]
pub struct MApiError<T>(pub T);

/// The Matrix error codes that the routes answer with.
#[derive(Clone, Copy, Debug, PartialEq, Eq, Structural)]
pub enum ErrorKind {
    /// `M_FORBIDDEN`
    Forbidden,
    /// `M_UNAUTHORIZED`
    Unauthorized,
    /// `M_TOO_LARGE`
    TooLarge,
    /// `M_BAD_JSON`
    BadJson,
    /// `M_NOT_FOUND`
    NotFound,
}

/// The HTTP status that the Matrix specification gives each error code.
pub open spec fn status_of(kind: ErrorKind) -> u16 {
    match kind {
        ErrorKind::Forbidden => 403,
        ErrorKind::Unauthorized => 401,
        ErrorKind::TooLarge => 413,
        ErrorKind::BadJson => 400,
        ErrorKind::NotFound => 404,
    }
}

impl MApiError<ErrorKind> {
    /// The HTTP status of the refusal.
    pub fn status_code(&self) -> (r: u16)
        ensures
            r == status_of(self.0),
    {
        match self.0 {
            ErrorKind::Forbidden => 403,
            ErrorKind::Unauthorized => 401,
            ErrorKind::TooLarge => 413,
            ErrorKind::BadJson => 400,
            ErrorKind::NotFound => 404,
        }
    }
}

} // verus!
