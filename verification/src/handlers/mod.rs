//! The decisions of the HTTP handlers, apart from the network exchanges.

pub mod auth;
pub mod health;
pub mod notes;
