//! The user record.

use vstd::prelude::*;

verus! {

/// A user record from the Neon Data API.
#[derive(Debug, Clone, PartialEq, Eq)]
pub struct User {
    pub id: String,
    pub email: String,
    pub name: String,
}

} // verus!
