use authbase::payload::UserUpdateDao;
use authbase::repository::build_update_statement;

#[test]
fn update_with_single_field() {
    let (stmt, binds) = build_update_statement(UserUpdateDao {
        id: 7,
        username: Some("alice".to_string()),
        email: None,
        password: None,
    })
    .unwrap();
    assert_eq!(stmt, "UPDATE users SET username = $1 WHERE id = $3");
    assert_eq!(binds, vec!["alice".to_string(), "7".to_string()]);
}

#[test]
fn update_with_two_fields() {
    let (stmt, binds) = build_update_statement(UserUpdateDao {
        id: -3,
        username: Some("alice".to_string()),
        email: Some("alice@example.com".to_string()),
        password: None,
    })
    .unwrap();
    assert_eq!(stmt, "UPDATE users SET username = $1, email = $2 WHERE id = $4");
    assert_eq!(
        binds,
        vec!["alice".to_string(), "alice@example.com".to_string(), "-3".to_string()]
    );
}

#[test]
fn update_with_all_fields() {
    let (stmt, binds) = build_update_statement(UserUpdateDao {
        id: 42,
        username: Some("a".to_string()),
        email: Some("b".to_string()),
        password: Some("hashed".to_string()),
    })
    .unwrap();
    assert_eq!(stmt, "UPDATE users SET username = $1, email = $2, password = $3 WHERE id = $5");
    assert_eq!(
        binds,
        vec!["a".to_string(), "b".to_string(), "hashed".to_string(), "42".to_string()]
    );
}

#[test]
fn update_with_password_only() {
    let (stmt, binds) = build_update_statement(UserUpdateDao {
        id: 1,
        username: None,
        email: None,
        password: Some("hashed".to_string()),
    })
    .unwrap();
    assert_eq!(stmt, "UPDATE users SET password = $1 WHERE id = $3");
    assert_eq!(binds, vec!["hashed".to_string(), "1".to_string()]);
}

#[test]
fn update_without_changes_is_rejected() {
    assert!(build_update_statement(UserUpdateDao {
        id: 1,
        username: None,
        email: None,
        password: None,
    })
    .is_none());
}
