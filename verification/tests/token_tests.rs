use authbase::payload::UserDto;
use authbase::errors::TokenError;
use authbase::settings::{Auth, Control, Database, Logger, Server, Settings};
use authbase::token::{TokenDecodeOutcome, TokenService};

fn test_settings() -> Settings {
    Settings {
        server: Server { host: "127.0.0.1".to_string(), port: 8080 },
        logger: Logger { level: "debug".to_string() },
        database: Database {
            migration_path: None,
            clean_start: false,
            url: "sqlite://test.db".to_string(),
        },
        control: Control {
            embed: false,
            client_id: "ctl".to_string(),
            host: "127.0.0.1".to_string(),
            port: 1883,
        },
        auth: Auth { secret: "unit-test-signing-secret".to_string(), expiration: 3600 },
    }
}

fn test_user() -> UserDto {
    UserDto {
        id: 12,
        username: "alice".to_string(),
        email: "alice@example.com".to_string(),
    }
}

#[test]
fn service_takes_its_settings() {
    let service = TokenService::new(&test_settings());
    assert_eq!(service.expiration(), 3600);
    assert_eq!(service.secret(), "unit-test-signing-secret");
}

#[test]
fn claims_carry_the_user_and_window() {
    let service = TokenService::new(&test_settings());
    let claims = service.make_claims(&test_user(), 1_700_000_000).unwrap();
    assert_eq!(claims.sub, "12");
    assert_eq!(claims.username, "alice");
    assert_eq!(claims.email, "alice@example.com");
    assert_eq!(claims.iat, 1_700_000_000);
    assert_eq!(claims.exp, 1_700_003_600);
}

#[test]
fn overflowing_window_is_refused() {
    let service = TokenService::new(&test_settings());
    assert!(service.make_claims(&test_user(), u64::MAX - 10).is_none());
}

#[test]
fn encode_outcomes_become_tokens_or_errors() {
    let service = TokenService::new(&test_settings());
    let token = service
        .token_from_encode(Ok("head.body.sig".to_string()), 100, 200)
        .unwrap();
    assert_eq!(token.token, "head.body.sig");
    assert_eq!(token.iat, 100);
    assert_eq!(token.exp, 200);

    let err = service
        .token_from_encode(Err("no key".to_string()), 100, 200)
        .unwrap_err();
    assert!(matches!(err, TokenError::TokenCreationError(m) if m == "no key"));
}

#[test]
fn decode_outcomes_become_claims_or_errors() {
    let service = TokenService::new(&test_settings());
    let claims = service.make_claims(&test_user(), 5).unwrap();
    let back = service
        .claims_from_decode(TokenDecodeOutcome::Valid(claims), "tok")
        .unwrap();
    assert_eq!(back.sub, "12");

    let expired = service
        .claims_from_decode(TokenDecodeOutcome::Expired, "tok")
        .unwrap_err();
    assert!(matches!(expired, TokenError::TokenExpired));

    let invalid = service
        .claims_from_decode(TokenDecodeOutcome::Invalid, "garbage")
        .unwrap_err();
    assert!(matches!(invalid, TokenError::InvalidToken(t) if t == "garbage"));
}
