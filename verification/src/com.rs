use vstd::prelude::*;

use crate::types::{LoginToken, UserId};

verus! {

/// Client request to create a user.
#[derive(Debug)]
pub struct CreateUserArgs {
    pub username: String,
    pub password: String,
}

/// Answer naming the created user.
#[derive(Debug)]
pub struct CreateUserResult {
    pub userid: UserId,
}

/// Client request to delete the user of a token.
#[derive(Debug)]
pub struct DeleteUserArgs {
    pub token: LoginToken,
    pub password: String,
}

/// Client request for the user of a token.
#[derive(Debug)]
pub struct GetUserIdFromTokenArgs {
    pub token: LoginToken,
}

/// Answer naming the user of a token.
#[derive(Debug)]
pub struct GetUserIdFromTokenResult {
    pub userid: UserId,
}

/// Client request whether a user is an administrator.
#[derive(Debug)]
pub struct IsAdminArgs {
    pub userid: UserId,
}

/// Answer whether a user is an administrator.
#[derive(Debug)]
pub struct IsAdminResult {
    pub is_admin: bool,
}

/// Client request to log in.
#[derive(Debug)]
pub struct LoginArgs {
    pub username: String,
    pub password: String,
    pub remember: bool,
}

/// Answer carrying a login token.
#[derive(Debug)]
pub struct LoginResult {
    pub token: LoginToken,
}

/// Client request to promote a user to administrator.
#[derive(Debug)]
pub struct PromoteUserArgs {
    pub token: LoginToken,
    pub user_to_promote: UserId,
}

} // verus!
