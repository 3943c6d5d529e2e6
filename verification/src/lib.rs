//! Verified core of a Neon-backed HTTP API: configuration, request planning
//! for the Neon Auth and Data APIs, token handling, error mapping and the
//! decisions that the HTTP handlers make.

pub mod bindings;
pub mod config;
pub mod error;
pub mod handlers;
pub mod models;
pub mod response;
pub mod routes;
pub mod services;
pub mod text;
