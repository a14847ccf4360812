//! What the service reads back from the user table to check a login.
use vstd::prelude::*;

verus! {

/// The least a login needs to know of a user.
#[derive(Debug, Clone)]
pub struct UserCredentials {
    pub id: i32,
    /// `None` for users who cannot log in with a password.
    pub password_hash: Option<String>,
    /// The version that session tokens of this user must carry.
    pub token_version: i32,
}

} // verus!
