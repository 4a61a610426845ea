use authbase::dialect::DatabaseScheme;
use authbase::sql::rewrite;

#[test]
fn replace_under_not_postgres_case() {
    let query = "SELECT * FROM users WHERE id = $1";
    let expected = "SELECT * FROM users WHERE id = ?";
    let actual = rewrite(&DatabaseScheme::MYSQL, query);
    assert_eq!(actual, expected);
}

#[test]
fn not_replace_under_postgres_case() {
    let query = "SELECT * FROM users WHERE id = $1";
    let expected = "SELECT * FROM users WHERE id = $1";
    let actual = rewrite(&DatabaseScheme::POSTGRES, query);
    assert_eq!(actual, expected);
}

#[test]
fn works_with_multiple_placeholders_in_sequence() {
    let query = "INSERT INTO users (name, age, salary) VALUES ($1, $2, $3)";
    let expected = "INSERT INTO users (name, age, salary) VALUES (?, ?, ?)";
    let actual = rewrite(&DatabaseScheme::MYSQL, query);
    assert_eq!(actual, expected);
}

#[test]
fn does_not_alter_text_within_quotes() {
    let query = "SELECT * FROM users WHERE name = '$1' AND email = 'email$2@example.com'";
    let expected = "SELECT * FROM users WHERE name = '$1' AND email = 'email$2@example.com'";
    let actual = rewrite(&DatabaseScheme::MYSQL, query);
    assert_eq!(actual, expected);
}

#[test]
fn test_replace_under_not_postgres() {
    let query = "SELECT * FROM users WHERE id = $1";
    let expected = "SELECT * FROM users WHERE id = ?";
    let actual = rewrite(&DatabaseScheme::MYSQL, query);

    assert_eq!(actual, expected);
}

#[test]
fn test_not_replace_under_postgres() {
    let query = "SELECT * FROM users WHERE id = $1";
    let expected = "SELECT * FROM users WHERE id = $1";
    let actual = rewrite(&DatabaseScheme::POSTGRES, query);

    assert_eq!(actual, expected);
}

#[test]
fn test_multiple_placeholders() {
    let query = "INSERT INTO users (name, age, salary) VALUES ($1, $2, $3)";
    let expected = "INSERT INTO users (name, age, salary) VALUES (?, ?, ?)";
    let actual = rewrite(&DatabaseScheme::MYSQL, query);

    assert_eq!(actual, expected);
}

#[test]
fn test_ignore_text_within_quotes() {
    let query = "SELECT * FROM users WHERE name = '$1' AND email = 'email$2@example.com'";
    let expected = "SELECT * FROM users WHERE name = '$1' AND email = 'email$2@example.com'";
    let actual = rewrite(&DatabaseScheme::MYSQL, query);

    assert_eq!(actual, expected);
}

#[test]
fn sqlite_rewrite_is_identity() {
    let query = "SELECT * FROM users WHERE name = '$1' AND id = $2";
    let actual = rewrite(&DatabaseScheme::SQLITE, query);
    assert_eq!(actual, query);
}

#[test]
fn dollar_without_digit_is_kept() {
    let actual = rewrite(&DatabaseScheme::MYSQL, "SELECT '$' || name, cost$ FROM t WHERE id = $12x");
    assert_eq!(actual, "SELECT '$' || name, cost$ FROM t WHERE id = ?x");
}

#[test]
fn dollar_at_end_is_kept() {
    let actual = rewrite(&DatabaseScheme::MYSQL, "weird$");
    assert_eq!(actual, "weird$");
}

#[test]
fn placeholder_after_closed_quote_is_rewritten() {
    let actual = rewrite(&DatabaseScheme::MYSQL, "'$1' $2 '$3'");
    assert_eq!(actual, "'$1' ? '$3'");
}

#[test]
fn consecutive_dollars_take_last() {
    let actual = rewrite(&DatabaseScheme::MYSQL, "$$1");
    assert_eq!(actual, "$?");
}
