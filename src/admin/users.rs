//! Account payloads of the authentication surface.

use vstd::prelude::*;

verus! {

/// Claims of a session token; times are seconds since the Unix epoch.
#[derive(Clone, Debug, PartialEq, Eq)]
pub struct TokenClaims {
    pub sub: String,
    pub role: String,
    pub iat: usize,
    pub exp: usize,
}

/// Login credentials.
#[derive(Clone, Debug, PartialEq, Eq)]
pub struct UserSchema {
    pub email: String,
    pub password: String,
}

/// A new account.
#[derive(Clone, Debug, PartialEq, Eq)]
pub struct UserRegister {
    pub username: String,
    pub email: String,
    pub password: String,
    pub role: String,
}

} // verus!
