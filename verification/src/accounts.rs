//! Request and response shapes of the host's account surface.
//!
//! Authentication, profiles and API keys are conventional CRUD owned
//! by the host process and its relational store; the aggregation
//! layer only shares their wire shapes, so both surfaces speak the
//! same types.

use vstd::prelude::*;

verus! {

/// Registration request body.
#[derive(Clone, Debug)]
pub struct RegisterRequest {
    pub email: String,
    pub password: String,
    pub username: Option<String>,
}

/// Login request body.
#[derive(Clone, Debug)]
pub struct LoginRequest {
    pub email: String,
    pub password: String,
}

/// The signed-in user as the auth endpoints report it.
#[derive(Clone, Debug)]
pub struct UserInfo {
    pub id: String,
    pub email: String,
    pub username: Option<String>,
    pub role: String,
}

/// Auth endpoints' response: a session token and the user.
#[derive(Clone, Debug)]
pub struct AuthResponse {
    pub token: String,
    pub user: UserInfo,
}

/// The profile endpoints' view of a user.
#[derive(Clone, Debug)]
pub struct UserProfile {
    pub id: String,
    pub email: String,
    pub username: Option<String>,
    pub role: String,
    pub created_at: i64,
}

/// Request body for creating an API key.
#[derive(Clone, Debug)]
pub struct CreateApiKeyRequest {
    pub name: String,
    pub plan: String,
}

} // verus!
