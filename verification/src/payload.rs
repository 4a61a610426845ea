//! The value shapes crossing the API boundary: token and user payloads,
//! and the envelope every error is reported in.

use vstd::prelude::*;

use crate::entities::User;

verus! {

/// The envelope an API error travels in: an optional message and the HTTP
/// status it was mapped to.
#[derive(Clone, Debug)]
pub struct ApiErrorResponse {
    pub message: Option<String>,
    pub status: u16,
}

impl ApiErrorResponse {
    /// Wrap a status and message for the boundary.
    pub fn new(status: u16, message: Option<String>) -> (r: ApiErrorResponse)
        ensures
            r.status == status,
            r.message == message,
    {
        ApiErrorResponse { message, status }
    }
}

/// An issued token with its validity window.
#[derive(Clone, Debug)]
pub struct TokenDto {
    pub token: String,
    pub iat: u64,
    pub exp: u64,
}

/// The claims carried inside a token.
#[derive(Clone, Debug)]
pub struct TokenClaimsDto {
    pub sub: String,
    pub username: String,
    pub email: String,
    pub iat: u64,
    pub exp: u64,
}

/// What the store needs to create a user.
#[derive(Clone, Debug)]
pub struct UserCreateDao {
    pub username: String,
    pub email: String,
    pub password: String,
}

/// What the store needs to update a user: the target row and the fields
/// that change.
#[derive(Clone, Debug)]
pub struct UserUpdateDao {
    pub id: i32,
    pub username: Option<String>,
    pub email: Option<String>,
    pub password: Option<String>,
}

/// The three ways a caller may identify a user.
#[derive(Clone, Debug)]
pub enum UserIdentity {
    Id(i32),
    Username(String),
    Email(String),
}

/// A login request: an identity and the password to check.
#[derive(Clone, Debug)]
pub struct UserAuthDto {
    pub identity: UserIdentity,
    pub password: String,
}

/// A registration request.
#[derive(Clone, Debug)]
pub struct UserCreateDto {
    pub username: String,
    pub email: String,
    pub password: String,
}

/// An update request; absent fields stay as they are.
#[derive(Clone, Debug)]
pub struct UserUpdateDto {
    pub username: Option<String>,
    pub email: Option<String>,
    pub password: Option<String>,
}

/// The public face of a user: never the password.
#[derive(Clone, Debug)]
pub struct UserDto {
    pub id: i32,
    pub username: String,
    pub email: String,
}

impl From<User> for UserDto {
    /// Strip a stored user down to its public fields.
    fn from(value: User) -> (r: UserDto) {
        UserDto { id: value.id, username: value.username, email: value.email }
    }
}

impl vstd::std_specs::convert::FromSpecImpl<User> for UserDto {
    open spec fn obeys_from_spec() -> bool {
        true
    }

    open spec fn from_spec(value: User) -> UserDto {
        UserDto { id: value.id, username: value.username, email: value.email }
    }
}

} // verus!
