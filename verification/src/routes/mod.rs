//! Bodies accepted by the routes of the auth service.

pub mod auth;
