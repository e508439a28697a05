//! Error types for the library.
use vstd::prelude::*;
use vstd::string::StringExecFns;

verus! {

/// Errors returned by Strava API methods.
///
/// Every failure surfaces to the immediate caller as exactly one of these
/// kinds; nothing is retried, logged, or swallowed internally.
#[derive(Debug, Clone, PartialEq)]
pub enum ApiError {
    /// The access token was missing, expired, or has insufficient permission
    /// for the requested resource (HTTP 401).
    Unauthorized,
    /// The request was rejected with HTTP 400; carries the raw response body
    /// for caller diagnostics.
    BadRequest(String),
    /// A network-level failure or a response-body deserialization failure;
    /// carries a description of the underlying transport error.
    Transport(String),
    /// A credential expected in the environment was absent.
    MissingCredential,
    /// The operation is deliberately left unimplemented and fails loudly
    /// instead of returning an empty or default result.
    NotImplemented,
}

impl ApiError {
    /// The text `describe` returns for this error.
    pub open spec fn spec_describe(self) -> Seq<char> {
        match self {
            ApiError::Unauthorized => "ApiError::Unauthorized"@,
            ApiError::BadRequest(s) => "ApiError::BadRequest ("@ + s@ + ")"@,
            ApiError::Transport(s) => "ApiError::Transport ("@ + s@ + ")"@,
            ApiError::MissingCredential => "ApiError::MissingCredential"@,
            ApiError::NotImplemented => "ApiError::NotImplemented"@,
        }
    }

    /// A human-readable description of the error, carrying the raw message
    /// for the kinds that have one.
    pub fn describe(&self) -> (r: String)
        ensures
            r@ == self.spec_describe(),
    {
        match self {
            ApiError::Unauthorized => String::from_str("ApiError::Unauthorized"),
            ApiError::BadRequest(s) => {
                let r = String::from_str("ApiError::BadRequest (").concat(s.as_str()).concat(")");
                r
            },
            ApiError::Transport(s) => {
                let r = String::from_str("ApiError::Transport (").concat(s.as_str()).concat(")");
                r
            },
            ApiError::MissingCredential => String::from_str("ApiError::MissingCredential"),
            ApiError::NotImplemented => String::from_str("ApiError::NotImplemented"),
        }
    }
}

} // verus!
