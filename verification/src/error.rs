//! Error taxonomy for the client core, and its mapping to HTTP status
//! classes.

use vstd::prelude::*;

use crate::spotify::types::SpotifyItemType;

verus! {

pub type ApiResult<T> = Result<T, ApiError>;

/// Type to capture all errors that can happen throughout the client core.
#[derive(Debug)]
pub enum ApiError {
    /// HTTP error from the upstream catalog API: a non-success status that
    /// the caller did not ask to pass through. The body is kept verbatim as
    /// diagnostic text.
    SpotifyApiHttp { status: u16, body: String },
    /// Failed to deserialize data from an upstream response body. Indicates a
    /// mismatch between the local type definitions and the upstream schema,
    /// not a user error; the raw body is kept for diagnostics.
    SpotifyApiDeserialization { body: String },
    /// Action cannot be performed because the user is not authenticated.
    Unauthenticated,
    /// We attempted to refresh the user's token, but no refresh token was
    /// stored. Terminal: the caller must re-authenticate.
    NoRefreshToken,
    /// The OAuth provider rejected the refresh request (e.g. a revoked
    /// grant). Terminal: the caller must re-authenticate.
    OauthErrorResponse { body: String },
    /// CSRF failure during auth.
    CsrfError,
    /// Tried to tag an item of an unsupported type.
    UnsupportedItemType { item_type: SpotifyItemType },
    /// Error parsing some input.
    Parse { source: ParseError },
    /// Catch-all error, should have a descriptive message.
    Unknown { message: String },
}

impl ApiError {
    /// Convert this error to an HTTP status code: caller-input errors are
    /// 400, authentication errors are 401, everything upstream or internal is
    /// 500.
    pub fn to_status(&self) -> (status: u16)
        ensures
            status == 400 <==> (self is UnsupportedItemType || self is Parse),
            status == 401 <==> (self is Unauthenticated || self is NoRefreshToken
                || self is CsrfError || self is OauthErrorResponse),
            status == 500 <==> (self is SpotifyApiHttp || self is SpotifyApiDeserialization
                || self is Unknown),
            status == 400 || status == 401 || status == 500,
    {
        match self {
            ApiError::UnsupportedItemType { .. } | ApiError::Parse { .. } => 400,
            ApiError::Unauthenticated
            | ApiError::NoRefreshToken
            | ApiError::CsrfError
            | ApiError::OauthErrorResponse { .. } => 401,
            ApiError::SpotifyApiHttp { .. }
            | ApiError::SpotifyApiDeserialization { .. }
            | ApiError::Unknown { .. } => 500,
        }
    }
}

/// An error occurred while parsing some input. This is typically generated by
/// general-purpose parsing functions, so it's hard to attach much context
/// here beyond the offending value itself. If it occurred while parsing user
/// input, it should be mapped into an [`InputValidationError`].
#[derive(Debug)]
pub struct ParseError {
    /// Description of the error
    pub message: String,
    /// The value being parsed
    pub value: String,
}

/// An error in a user-supplied input field, carrying the name of the field so
/// the user can be told which input was invalid.
#[derive(Debug)]
pub struct InputValidationError {
    /// The input field being validated
    pub field: String,
    /// Description of the error
    pub message: String,
}

} // verus!
