use vstd::prelude::*;

verus! {

/// The message given with a `Forbidden` outcome for a locked account.
pub const LOCKED_ACCOUNT: &'static str = "Account is locked";

/// The message given with a `Forbidden` outcome for an action the caller may not perform.
pub const FORBIDDEN_ACTION: &'static str = "You do not have permission to perform this action";

/// The message given with a `Forbidden` outcome for a feature that is switched off.
pub const DISABLED_FEATURE: &'static str = "This feature is disabled";

/// The body of an `Unauthorized` response.
pub const UNAUTHORIZED_BODY: &'static str = "Unauthorized";

/// The body of an internal failure: the detail stays in the server's logs.
pub const INTERNAL_ERROR_BODY: &'static str = "An internal server error occurred";

/// The closed set of failures surfaced to the HTTP and GraphQL layers.
#[derive(Debug)]
pub enum APIError {
    /// No credential, or an invalid one. Carries nothing that identifies a user.
    Unauthorized,
    /// Authenticated, but not allowed; the reason is a fixed message.
    Forbidden(String),
    /// Signing, hashing or storage failure.
    InternalServerError(String),
}

/// Failures while reading presented credentials.
#[derive(Debug, Clone, Copy, PartialEq, Eq, Structural)]
pub enum AuthError {
    /// The credential payload is not `username:password` in UTF-8, or a part is empty.
    BadCredentials,
    /// The stored password hash could not be read.
    InvalidHash,
    /// A password hash could not be produced.
    HashFailure,
}

/// The status code of an error.
pub open spec fn error_status(e: APIError) -> u16 {
    match e {
        APIError::Unauthorized => 401,
        APIError::Forbidden(_) => 403,
        APIError::InternalServerError(_) => 500,
    }
}

/// The response body of an error.
pub open spec fn error_body(e: APIError) -> Seq<char> {
    match e {
        APIError::Unauthorized => UNAUTHORIZED_BODY@,
        APIError::Forbidden(m) => m@,
        APIError::InternalServerError(_) => INTERNAL_ERROR_BODY@,
    }
}

/// Every failed credential gives the same answer: status 401 and the fixed
/// `Unauthorized` body, which carries nothing of the user or the credential.
pub proof fn law_unauthorized_is_bare(e: APIError, other: APIError)
    requires
        e is Unauthorized,
        other is Unauthorized,
    ensures
        error_status(e) == 401,
        error_body(e) == UNAUTHORIZED_BODY@,
        error_body(e) == error_body(other),
{
}

impl APIError {
    /// The response body: a fixed text for `Unauthorized` and internal failures,
    /// the fixed reason for `Forbidden`. No body names a user or a credential.
    pub fn body(&self) -> (r: String)
        ensures
            r@ == error_body(*self),
    {
        match self {
            APIError::Unauthorized => UNAUTHORIZED_BODY.to_owned(),
            APIError::Forbidden(m) => m.clone(),
            APIError::InternalServerError(_) => INTERNAL_ERROR_BODY.to_owned(),
        }
    }

    /// The HTTP status code the error maps to.
    pub fn status_code(&self) -> (r: u16)
        ensures
            r == error_status(*self),
    {
        match self {
            APIError::Unauthorized => 401,
            APIError::Forbidden(_) => 403,
            APIError::InternalServerError(_) => 500,
        }
    }
}

} // verus!
