use vstd::prelude::*;

verus! {

/// The failures that the authorization and token engines report.
#[derive(Debug, Clone, Copy, PartialEq, Eq, Structural)]
pub enum OAuthError {
    /// A required request parameter is missing or malformed.
    InvalidRequest,
    /// `response_type` is present but is not `code`.
    UnsupportedResponseType,
    /// `grant_type` is present but is not `authorization_code`.
    UnsupportedGrantType,
    /// No session, or the session is unknown or expired.
    Unauthorized,
    /// Unknown email or wrong password at login.
    InvalidCredentials,
    /// Unknown client, unregistered redirect URI or scope not granted.
    InvalidClientOrBinding,
    /// Authorization code missing, expired, already used, or bound elsewhere.
    InvalidGrant,
    /// Client secret rejected, or the token could not be signed.
    TokenIssuanceFailed,
    /// The credential store or the hasher failed.
    ServerError,
}

/// The wire name of each error.
pub open spec fn error_code_spec(e: OAuthError) -> Seq<char> {
    match e {
        OAuthError::InvalidRequest => "invalid_request"@,
        OAuthError::UnsupportedResponseType => "unsupported_response_type"@,
        OAuthError::UnsupportedGrantType => "unsupported_grant_type"@,
        OAuthError::Unauthorized => "unauthorized"@,
        OAuthError::InvalidCredentials => "invalid_credentials"@,
        OAuthError::InvalidClientOrBinding => "invalid_client_or_binding"@,
        OAuthError::InvalidGrant => "invalid_grant"@,
        OAuthError::TokenIssuanceFailed => "token_issuance_failed"@,
        OAuthError::ServerError => "server_error"@,
    }
}

/// The HTTP status each error is answered with.
pub open spec fn http_status_spec(e: OAuthError) -> u16 {
    match e {
        OAuthError::InvalidRequest => 400,
        OAuthError::UnsupportedResponseType => 400,
        OAuthError::UnsupportedGrantType => 400,
        OAuthError::Unauthorized => 401,
        OAuthError::InvalidCredentials => 401,
        OAuthError::InvalidClientOrBinding => 400,
        OAuthError::InvalidGrant => 400,
        OAuthError::TokenIssuanceFailed => 401,
        OAuthError::ServerError => 500,
    }
}

impl OAuthError {
    /// The error's wire name, as sent in the `error` field of a response.
    pub fn code(&self) -> (r: &'static str)
        ensures
            r@ == error_code_spec(*self),
    {
        match self {
            OAuthError::InvalidRequest => "invalid_request",
            OAuthError::UnsupportedResponseType => "unsupported_response_type",
            OAuthError::UnsupportedGrantType => "unsupported_grant_type",
            OAuthError::Unauthorized => "unauthorized",
            OAuthError::InvalidCredentials => "invalid_credentials",
            OAuthError::InvalidClientOrBinding => "invalid_client_or_binding",
            OAuthError::InvalidGrant => "invalid_grant",
            OAuthError::TokenIssuanceFailed => "token_issuance_failed",
            OAuthError::ServerError => "server_error",
        }
    }

    /// The HTTP status code of the response that reports this error.
    pub fn status(&self) -> (r: u16)
        ensures
            r == http_status_spec(*self),
    {
        match self {
            OAuthError::InvalidRequest => 400,
            OAuthError::UnsupportedResponseType => 400,
            OAuthError::UnsupportedGrantType => 400,
            OAuthError::Unauthorized => 401,
            OAuthError::InvalidCredentials => 401,
            OAuthError::InvalidClientOrBinding => 400,
            OAuthError::InvalidGrant => 400,
            OAuthError::TokenIssuanceFailed => 401,
            OAuthError::ServerError => 500,
        }
    }
}

} // verus!
