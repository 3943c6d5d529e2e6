//! Clients of outside services.

pub mod auth;
