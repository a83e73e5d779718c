//! The outcome kinds that every operation of the service reports, and the
//! HTTP status line that each of them maps to.

use vstd::prelude::*;

verus! {

/// Outcome of a request, as the HTTP layer reports it.
#[derive(Clone, Copy, Debug, PartialEq, Eq, Structural)]
pub enum Status {
    /// The request succeeded.
    Success,
    /// A header, field or parameter was missing or malformed.
    BadRequest,
    /// The bearer token was missing, malformed, or outside its validity window.
    Unauthorized,
    /// The credentials are wrong, or the resource does not exist for this user.
    Forbidden,
    /// The requested collection holds nothing for this user.
    NotFound,
    /// The user already holds media with the same digest.
    PreconditionFailed,
    /// The content type is not one of the recognised image types.
    UnsupportedMediaType,
    /// The catalog, the object store or the message bus failed.
    InternalServerError,
}

impl Status {
    /// The numeric HTTP status code.
    pub open spec fn spec_code(self) -> u16 {
        match self {
            Status::Success => 200,
            Status::BadRequest => 400,
            Status::Unauthorized => 401,
            Status::Forbidden => 403,
            Status::NotFound => 404,
            Status::PreconditionFailed => 412,
            Status::UnsupportedMediaType => 415,
            Status::InternalServerError => 500,
        }
    }

    /// The numeric HTTP status code.
    #[verifier::when_used_as_spec(spec_code)]
    pub fn code(self) -> (code: u16)
        ensures
            code == self.spec_code(),
    {
        match self {
            Status::Success => 200,
            Status::BadRequest => 400,
            Status::Unauthorized => 401,
            Status::Forbidden => 403,
            Status::NotFound => 404,
            Status::PreconditionFailed => 412,
            Status::UnsupportedMediaType => 415,
            Status::InternalServerError => 500,
        }
    }

    /// Whether the outcome is a success.
    pub fn is_success(self) -> (success: bool)
        ensures
            success == (self == Status::Success),
    {
        match self {
            Status::Success => true,
            _ => false,
        }
    }
}

} // verus!
