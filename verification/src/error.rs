use vstd::prelude::*;

use crate::pswd::hash_error_text;

verus! {

broadcast use vstd::string::group_string_axioms;

/// Why a request failed.
#[derive(Debug)]
pub enum ApiError {
    /// A database query failed; the text is the database error's message.
    Database(String),
    /// A password hash could not be made or read.
    PasswordHash(argon2::password_hash::Error),
    /// The password does not match the stored hash.
    WrongPassword,
    /// Only an administrator may promote users.
    NotAdmin,
}

impl ApiError {
    /// The message sent back to the client.
    pub fn message(&self) -> (r: String)
        ensures
            self matches ApiError::Database(m) ==> r@ == m@,
            self matches ApiError::WrongPassword ==> r@ == "Wrong password."@,
            self matches ApiError::NotAdmin ==> r@
                == "Must be an admin to promote other users to admin."@,
    {
        match self {
            ApiError::Database(m) => m.clone(),
            ApiError::PasswordHash(e) => hash_error_text(e),
            ApiError::WrongPassword => "Wrong password.".to_string(),
            ApiError::NotAdmin => "Must be an admin to promote other users to admin.".to_string(),
        }
    }
}

} // verus!
