//! Token-area data shapes.

use vstd::prelude::*;

verus! {

/// A token revocation request.
#[derive(Debug, Clone)]
pub struct RevokeRequest {
    pub token: String,
    pub token_type_hint: Option<String>,
}

/// Information about the authenticated user and token.
#[derive(Debug, Clone)]
pub struct UserInfo {
    /// Issued-at timestamp (Unix epoch seconds).
    pub iat: i64,
    /// Granted scopes.
    pub scope: String,
    /// Subject identifier (token ID).
    pub sub: String,
    /// Token type.
    pub token_use: String,
    /// Audience (client ID).
    pub aud: Option<String>,
    /// Client identifier.
    pub client_id: Option<String>,
    /// Expiration timestamp (Unix epoch seconds).
    pub exp: Option<i64>,
}

} // verus!
