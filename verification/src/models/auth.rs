//! Neon Auth request and response bodies.

use vstd::prelude::*;

verus! {

// ── Request types ──

/// Body of a sign-up request.
#[derive(Debug, Clone, PartialEq, Eq)]
pub struct SignUpRequest {
    pub email: String,
    pub name: String,
    pub password: String,
}

/// Body of a sign-in request.
#[derive(Debug, Clone, PartialEq, Eq)]
pub struct SignInRequest {
    pub email: String,
    pub password: String,
}

// ── Response types ──

/// Answer to a sign-up or sign-in.
#[derive(Debug, Clone, PartialEq, Eq)]
pub struct AuthResponse {
    pub session: Session,
}

/// A session.
#[derive(Debug, Clone, PartialEq, Eq)]
pub struct Session {
    pub token: String,
}

/// Answer to a session query.
#[derive(Debug, Clone, PartialEq, Eq)]
pub struct SessionResponse {
    pub session: Option<Session>,
}

} // verus!
