use authbase::errors::{
    classify_database_error, ApiError, AuthError, ConfigError, ControlError, DatabaseError,
    DbError, TokenError, UserError,
};

#[test]
fn unique_violation_codes_are_conflicts() {
    for code in ["23505", "1062", "2067"] {
        let err = classify_database_error(Some(&code.to_string()), "dup".to_string());
        assert!(matches!(err, DatabaseError::UniqueConstraintViolation));
        assert_eq!(err.status_code(), 409);
    }
}

#[test]
fn other_codes_keep_the_message() {
    let err = classify_database_error(Some(&"42601".to_string()), "syntax error".to_string());
    match err {
        DatabaseError::DatabaseExecuteError(m) => assert_eq!(m, "syntax error"),
        _ => panic!("expected an execution error"),
    }
}

#[test]
fn missing_code_keeps_the_message() {
    let err = classify_database_error(None, "boom".to_string());
    match &err {
        DatabaseError::DatabaseExecuteError(m) => assert_eq!(m, "boom"),
        _ => panic!("expected an execution error"),
    }
    assert_eq!(err.status_code(), 500);
}

#[test]
fn auth_error_status_codes() {
    assert_eq!(AuthError::InvalidToken("t".to_string()).status_code(), 401);
    assert_eq!(AuthError::TokenExpired.status_code(), 401);
    assert_eq!(AuthError::MissingToken.status_code(), 401);
    assert_eq!(AuthError::TokenCreationError("e".to_string()).status_code(), 500);
    assert_eq!(AuthError::InvalidPassword.status_code(), 400);
    assert_eq!(AuthError::PasswordHashError("e".to_string()).status_code(), 500);
}

#[test]
fn token_error_status_codes() {
    assert_eq!(TokenError::InvalidToken("t".to_string()).status_code(), 401);
    assert_eq!(TokenError::TokenExpired.status_code(), 401);
    assert_eq!(TokenError::MissingToken.status_code(), 401);
    assert_eq!(TokenError::TokenCreationError("e".to_string()).status_code(), 500);
}

#[test]
fn user_error_status_codes() {
    assert_eq!(UserError::MissingIdentity.status_code(), 400);
    assert_eq!(UserError::UserNotFound.status_code(), 404);
    assert_eq!(UserError::UserAlreadyExists.status_code(), 400);
    assert_eq!(UserError::UserCreateFail.status_code(), 500);
    assert_eq!(UserError::UserUpdateFail.status_code(), 500);
}

#[test]
fn grouped_errors_keep_their_status() {
    assert_eq!(ApiError::UserError(UserError::UserNotFound).status_code(), 404);
    assert_eq!(
        ApiError::DatabaseError(DatabaseError::UniqueConstraintViolation).status_code(),
        409
    );
    assert_eq!(ApiError::TokenError(TokenError::TokenExpired).status_code(), 401);
    assert_eq!(ApiError::AuthError(AuthError::InvalidPassword).status_code(), 400);
    assert_eq!(
        ApiError::ConfigError(ConfigError::PathError("io".to_string())).status_code(),
        500
    );
}

#[test]
fn remaining_error_status_codes() {
    assert_eq!(ControlError::Error.status_code(), 500);
    assert_eq!(DbError::InternalDatabaseError("e".to_string()).status_code(), 500);
    assert_eq!(DbError::UniqueConstraintViolation("dup".to_string()).status_code(), 409);
    assert_eq!(
        ConfigError::IncompatibleTypeError {
            path: "$.server".to_string(),
            expected_type: "integer".to_string(),
            actual_type: "string".to_string(),
        }
        .status_code(),
        500
    );
}
