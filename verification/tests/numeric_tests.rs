use authbase::entities::User;
use authbase::numeric::{i32_to_decimal, u64_to_decimal};
use authbase::payload::UserDto;

#[test]
fn unsigned_decimals_render_exactly() {
    assert_eq!(u64_to_decimal(0), "0");
    assert_eq!(u64_to_decimal(7), "7");
    assert_eq!(u64_to_decimal(10), "10");
    assert_eq!(u64_to_decimal(1_700_003_600), "1700003600");
    assert_eq!(u64_to_decimal(u64::MAX), "18446744073709551615");
}

#[test]
fn signed_decimals_render_exactly() {
    assert_eq!(i32_to_decimal(0), "0");
    assert_eq!(i32_to_decimal(42), "42");
    assert_eq!(i32_to_decimal(-1), "-1");
    assert_eq!(i32_to_decimal(i32::MAX), "2147483647");
    assert_eq!(i32_to_decimal(i32::MIN), "-2147483648");
}

#[test]
fn user_dto_drops_the_password() {
    let dto = UserDto::from(User {
        id: 5,
        username: "alice".to_string(),
        email: "alice@example.com".to_string(),
        password: "secret-hash".to_string(),
    });
    assert_eq!(dto.id, 5);
    assert_eq!(dto.username, "alice");
    assert_eq!(dto.email, "alice@example.com");
}
