//! Request and response models of Neon Auth and the Data API.

pub mod auth;
pub mod user;
