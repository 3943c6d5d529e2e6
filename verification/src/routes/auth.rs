//! Request bodies of the auth routes.

use vstd::prelude::*;

verus! {

/// Body of `POST /api/v1/auth/sign-up`.
#[derive(Debug, Clone, PartialEq, Eq)]
pub struct SignUpBody {
    pub email: String,
    pub name: String,
    pub password: String,
}

/// Body of `POST /api/v1/auth/sign-in`.
#[derive(Debug, Clone, PartialEq, Eq)]
pub struct SignInBody {
    pub email: String,
    pub password: String,
}

} // verus!
