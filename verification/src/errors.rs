//! The error taxonomy, and the one explicit table that maps each failure
//! to an HTTP status at the boundary. Configuration, schema and bootstrap
//! failures are fatal for startup; of the request-time failures only the
//! unique-constraint violation is singled out, as a conflict.

use vstd::prelude::*;

use crate::text::str_eq;

verus! {

/// Failures while loading or merging configuration.
#[derive(Debug)]
pub enum ConfigError {
    IncompatibleTypeError { path: String, expected_type: String, actual_type: String },
    Utf8LoadError(String),
    SerializeError(String),
    DeserializeError(String),
    PathError(String),
}

impl ConfigError {
    pub open spec fn spec_status_code(&self) -> u16 {
        500
    }

    /// Every configuration failure is an internal server error.
    pub fn status_code(&self) -> (code: u16)
        ensures
            code == self.spec_status_code(),
    {
        500
    }
}

/// Failures at the database boundary during bootstrap, migration and
/// statement execution.
#[derive(Debug)]
pub enum DatabaseError {
    DatabaseMigrateError(String),
    DatabaseAccessError(String),
    DatabaseExecuteError(String),
    UniqueConstraintViolation,
}

impl DatabaseError {
    pub open spec fn spec_status_code(&self) -> u16 {
        match self {
            DatabaseError::UniqueConstraintViolation => 409,
            _ => 500,
        }
    }

    /// Constraint violations surface as a conflict; everything else is an
    /// internal server error.
    pub fn status_code(&self) -> (code: u16)
        ensures
            code == self.spec_status_code(),
    {
        match self {
            DatabaseError::UniqueConstraintViolation => 409,
            _ => 500,
        }
    }
}

/// The three vendor codes that signal a unique-constraint violation:
/// Postgres, MySQL and SQLite in that order.
pub open spec fn is_unique_violation_code(c: Seq<char>) -> bool {
    c == "23505"@ || c == "1062"@ || c == "2067"@
}

/// Classify what the database driver reported for a failed statement: a
/// vendor error code naming a unique-constraint violation becomes
/// `UniqueConstraintViolation`; any other code, or none, keeps the
/// driver's message as an execution error.
pub fn classify_database_error(code: Option<&String>, message: String) -> (r: DatabaseError)
    ensures
        match code {
            Some(c) => if is_unique_violation_code(c@) {
                r == DatabaseError::UniqueConstraintViolation
            } else {
                r matches DatabaseError::DatabaseExecuteError(m) && m@ == message@
            },
            None => r matches DatabaseError::DatabaseExecuteError(m) && m@ == message@,
        },
{
    match code {
        Some(c) => {
            if str_eq(c.as_str(), "23505") || str_eq(c.as_str(), "1062") || str_eq(
                c.as_str(),
                "2067",
            ) {
                DatabaseError::UniqueConstraintViolation
            } else {
                DatabaseError::DatabaseExecuteError(message)
            }
        },
        None => DatabaseError::DatabaseExecuteError(message),
    }
}

/// Failures of authentication and password handling.
#[derive(Debug)]
pub enum AuthError {
    InvalidToken(String),
    TokenExpired,
    TokenCreationError(String),
    MissingToken,
    InvalidPassword,
    PasswordHashError(String),
}

impl AuthError {
    pub open spec fn spec_status_code(&self) -> u16 {
        match self {
            AuthError::InvalidToken(_) => 401,
            AuthError::TokenExpired => 401,
            AuthError::MissingToken => 401,
            AuthError::TokenCreationError(_) => 500,
            AuthError::InvalidPassword => 400,
            AuthError::PasswordHashError(_) => 500,
        }
    }

    /// Token faults are unauthorized, a wrong password is a bad request,
    /// and failures to create tokens or hashes are internal.
    pub fn status_code(&self) -> (code: u16)
        ensures
            code == self.spec_status_code(),
    {
        match self {
            AuthError::InvalidToken(_) => 401,
            AuthError::TokenExpired => 401,
            AuthError::MissingToken => 401,
            AuthError::TokenCreationError(_) => 500,
            AuthError::InvalidPassword => 400,
            AuthError::PasswordHashError(_) => 500,
        }
    }
}

/// Failures around bearer tokens alone.
#[derive(Debug)]
pub enum TokenError {
    InvalidToken(String),
    TokenExpired,
    MissingToken,
    TokenCreationError(String),
}

impl TokenError {
    pub open spec fn spec_status_code(&self) -> u16 {
        match self {
            TokenError::InvalidToken(_) => 401,
            TokenError::TokenExpired => 401,
            TokenError::MissingToken => 401,
            TokenError::TokenCreationError(_) => 500,
        }
    }

    /// Everything but a creation failure is unauthorized.
    pub fn status_code(&self) -> (code: u16)
        ensures
            code == self.spec_status_code(),
    {
        match self {
            TokenError::InvalidToken(_) => 401,
            TokenError::TokenExpired => 401,
            TokenError::MissingToken => 401,
            TokenError::TokenCreationError(_) => 500,
        }
    }
}

/// Failures of user lookup and maintenance.
#[derive(Debug)]
pub enum UserError {
    MissingIdentity,
    UserNotFound,
    UserAlreadyExists,
    UserCreateFail,
    UserUpdateFail,
}

impl UserError {
    pub open spec fn spec_status_code(&self) -> u16 {
        match self {
            UserError::MissingIdentity => 400,
            UserError::UserNotFound => 404,
            UserError::UserAlreadyExists => 400,
            UserError::UserCreateFail => 500,
            UserError::UserUpdateFail => 500,
        }
    }

    /// Bad identities and duplicates are the caller's fault; a missing
    /// user is not found; create and update failures are internal.
    pub fn status_code(&self) -> (code: u16)
        ensures
            code == self.spec_status_code(),
    {
        match self {
            UserError::MissingIdentity => 400,
            UserError::UserNotFound => 404,
            UserError::UserAlreadyExists => 400,
            UserError::UserCreateFail => 500,
            UserError::UserUpdateFail => 500,
        }
    }
}

/// Failures of the optional broker control channel.
#[derive(Clone, Copy, Debug, PartialEq, Eq, Structural)]
pub enum ControlError {
    Error,
}

impl ControlError {
    pub open spec fn spec_status_code(&self) -> u16 {
        500
    }

    /// Any control-channel fault is an internal server error.
    pub fn status_code(&self) -> (code: u16)
        ensures
            code == self.spec_status_code(),
    {
        500
    }
}

/// Failures surfaced across the API boundary, grouped by origin.
#[derive(Debug)]
pub enum ApiError {
    ConfigError(ConfigError),
    DatabaseError(DatabaseError),
    TokenError(TokenError),
    UserError(UserError),
    AuthError(AuthError),
}

impl ApiError {
    pub open spec fn spec_status_code(&self) -> u16 {
        match self {
            ApiError::ConfigError(e) => e.spec_status_code(),
            ApiError::DatabaseError(e) => e.spec_status_code(),
            ApiError::TokenError(e) => e.spec_status_code(),
            ApiError::UserError(e) => e.spec_status_code(),
            ApiError::AuthError(e) => e.spec_status_code(),
        }
    }

    /// Each grouped failure keeps exactly the status of its origin.
    pub fn status_code(&self) -> (code: u16)
        ensures
            code == self.spec_status_code(),
    {
        match self {
            ApiError::ConfigError(e) => e.status_code(),
            ApiError::DatabaseError(e) => e.status_code(),
            ApiError::TokenError(e) => e.status_code(),
            ApiError::UserError(e) => e.status_code(),
            ApiError::AuthError(e) => e.status_code(),
        }
    }
}

/// Failures at the database boundary as the request layer reports them.
#[derive(Debug)]
pub enum DbError {
    InternalDatabaseError(String),
    UniqueConstraintViolation(String),
}

impl DbError {
    pub open spec fn spec_status_code(&self) -> u16 {
        match self {
            DbError::InternalDatabaseError(_) => 500,
            DbError::UniqueConstraintViolation(_) => 409,
        }
    }

    /// A duplicate entry is a conflict; everything else is internal.
    pub fn status_code(&self) -> (code: u16)
        ensures
            code == self.spec_status_code(),
    {
        match self {
            DbError::InternalDatabaseError(_) => 500,
            DbError::UniqueConstraintViolation(_) => 409,
        }
    }
}

} // verus!
