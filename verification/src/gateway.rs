//! The gateway: the small front that only checks passwords.

use crate::catalog::{user_named, DbManager};
use vstd::prelude::*;

verus! {

/// The body of a login request.
pub struct LoginRequest {
    pub username: String,
    pub password: String,
}

/// The body of the answer to a login.
pub struct LoginResponse {
    pub token: String,
}

/// The body of the answer to an upload.
pub struct UploadImageResponse {
    /// The number of bytes that were received.
    pub size: u64,
}

/// The stored hash of a user's password.
pub struct UserPassword {
    pub password: String,
}

/// The gateway's access to the catalog: it reads users, and nothing else.
pub struct DbAccess {
    pub catalog: DbManager,
}

impl DbAccess {
    /// Access to the catalog.
    pub fn new(catalog: DbManager) -> (access: Self)
        ensures
            access.catalog == catalog,
    {
        DbAccess { catalog }
    }

    /// The stored hash of the password of the user with this name, if
    /// there is such a user.
    pub fn get_user_password(&self, username: &str) -> (found: Option<UserPassword>)
        ensures
            match user_named(self.catalog.users@, username@) {
                Ok(user) => found matches Some(p) && p.password@ == user.password@,
                Err(_) => found is None,
            },
    {
        match self.catalog.get_user(username) {
            Ok(user) => Some(UserPassword { password: user.password.clone() }),
            Err(_) => None,
        }
    }
}

} // verus!
