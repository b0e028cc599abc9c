use vstd::prelude::*;
use vstd::string::StringExecFns;

verus! {

/// Error taxonomy shared by the services.
///
/// `Validation` covers malformed identifiers and missing required fields;
/// `NotFound` a missing record where that fact may be revealed;
/// `Unauthenticated` a rejected login, deliberately silent about whether the
/// email exists; `Internal` any storage, signing or other server-side
/// failure, reported generically and never retried by the service itself.
#[derive(Clone, Copy, Debug, PartialEq, Eq, Structural)]
pub enum ServiceError {
    Validation,
    NotFound,
    Unauthenticated,
    Internal,
}

/// The message text of each error class, as one place. Both login rejections
/// (unknown email, wrong password) are the single `Unauthenticated` class and
/// therefore share one message.
pub open spec fn error_message_text(e: ServiceError) -> Seq<char> {
    match e {
        ServiceError::Validation => "invalid argument"@,
        ServiceError::NotFound => "not found"@,
        ServiceError::Unauthenticated => "invalid credentials"@,
        ServiceError::Internal => "internal error"@,
    }
}

impl ServiceError {
    /// Render this error class for the caller.
    pub fn message(&self) -> (r: String)
        ensures
            r@ == error_message_text(*self),
    {
        match self {
            ServiceError::Validation => String::from_str("invalid argument"),
            ServiceError::NotFound => String::from_str("not found"),
            ServiceError::Unauthenticated => String::from_str("invalid credentials"),
            ServiceError::Internal => String::from_str("internal error"),
        }
    }
}

} // verus!
