//! The data shapes of the service's web boundary, and the markers of its
//! query surface. The core only defines these shapes; transport, sessions
//! and handlers live in the embedding service.

use vstd::prelude::*;

verus! {

/// The error body the service returns to callers.
#[derive(Clone, PartialEq, Debug)]
pub struct CommonErrorResponse {
    pub message: String,
    pub details: Option<String>,
    pub developer_message: String,
}

/// Information about the signed-in user.
#[derive(Clone, PartialEq, Debug)]
pub struct Me {
    pub email: String,
}

/// A one-time state token handed out at the start of an authentication
/// flow.
#[derive(Clone, PartialEq, Debug)]
pub struct StateTokenResponse {
    pub state: String,
}

/// The callback payload of the external identity flow.
#[derive(Clone, PartialEq, Debug)]
pub struct GoogleAuthRequest {
    pub state: String,
    pub code: String,
    pub redirect_uri: String,
}

/// A new account with an email and a password.
#[derive(Clone, PartialEq, Debug)]
pub struct SignupAuthRequest {
    pub email: String,
    pub password: String,
}

/// Credentials of an existing account.
#[derive(Clone, PartialEq, Debug)]
pub struct SigninAuthRequest {
    pub email: String,
    pub password: String,
}

/// A session token and when it lapses.
#[derive(Clone, PartialEq, Debug)]
pub struct AuthTokenResponse {
    pub token: String,
    pub expires_at: usize,
}

/// How an account signs in.
#[derive(Clone, Copy, PartialEq, Eq, Structural, Debug)]
pub enum LoginMethodType {
    GoogleOauth,
    Password,
}

/// The root of the service's query surface.
pub struct QueryRoot {}

/// The root of the service's mutation surface.
pub struct MutationRoot {}

} // verus!
