use blog_core::auth::{create_jwt, starts_with_bearer, AuthConfig, AuthUser, AUTHORIZATION};
use blog_core::error::AppError;

const SUBJECT: &str = "64b7f3a2c1d4e5f601234567";
const NOW: usize = 1_700_000_000;

fn config() -> AuthConfig {
    AuthConfig::new("secret".to_string())
}

fn extract(header: Option<&[u8]>, now: usize) -> Result<AuthUser, AppError> {
    AuthUser::from_authorization_header(&config(), header, now)
}

fn auth(message: &str) -> AppError {
    AppError::Auth(message.to_string())
}

#[test]
fn missing_header_is_rejected() {
    assert_eq!(extract(None, NOW), Err(auth("Missing authorization header")));
    assert_eq!(extract(None, NOW).unwrap_err().status_code(), 401);
}

#[test]
fn header_that_is_no_text_is_rejected() {
    assert_eq!(extract(Some(b"Bearer \xff\xfe"), NOW), Err(auth("Invalid authpurization header")));
    assert_eq!(extract(Some(b"\x80"), NOW), Err(auth("Invalid authpurization header")));
    assert_eq!(extract(Some(b"Bearer \xc3"), NOW), Err(auth("Invalid authpurization header")));
}

#[test]
fn header_without_the_prefix_is_rejected() {
    let token = create_jwt(&config(), SUBJECT, NOW).unwrap();
    for value in [
        String::new(),
        "Bearer".to_string(),
        "Basic dXNlcjpwdw==".to_string(),
        token.clone(),
        format!("bearer {}", token),
        format!("BEARER {}", token),
        format!(" Bearer {}", token),
        format!("Bearer\t{}", token),
        format!("Bearer:{}", token),
    ] {
        assert_eq!(
            extract(Some(value.as_bytes()), NOW),
            Err(auth("Invalid authorization header")),
            "{}",
            value
        );
    }
}

#[test]
fn valid_token_yields_its_subject() {
    let token = create_jwt(&config(), SUBJECT, NOW).unwrap();
    let header = format!("Bearer {}", token);
    assert_eq!(extract(Some(header.as_bytes()), NOW), Ok(AuthUser(SUBJECT.to_string())));
    assert_eq!(extract(Some(header.as_bytes()), NOW + 3599), Ok(AuthUser(SUBJECT.to_string())));
}

#[test]
fn expired_token_is_an_invalid_token() {
    let token = create_jwt(&config(), SUBJECT, NOW).unwrap();
    let header = format!("Bearer {}", token);
    assert_eq!(extract(Some(header.as_bytes()), NOW + 3600), Err(auth("Invalid token")));
    assert_eq!(extract(Some(header.as_bytes()), NOW + 3601), Err(auth("Invalid token")));
}

#[test]
fn token_of_another_key_is_an_invalid_token() {
    let token = create_jwt(&AuthConfig::new("other".to_string()), SUBJECT, NOW).unwrap();
    let header = format!("Bearer {}", token);
    assert_eq!(extract(Some(header.as_bytes()), NOW), Err(auth("Invalid token")));
}

#[test]
fn anything_else_after_the_prefix_is_an_invalid_token() {
    let token = create_jwt(&config(), SUBJECT, NOW).unwrap();
    for value in [
        "Bearer ".to_string(),
        "Bearer garbage".to_string(),
        "Bearer a.b.c".to_string(),
        "Bearer t\u{f6}k\u{e9}n".to_string(),
        format!("Bearer  {}", token),
        format!("Bearer {} ", token),
    ] {
        assert_eq!(extract(Some(value.as_bytes()), NOW), Err(auth("Invalid token")), "{}", value);
    }
}

#[test]
fn prefix_is_seven_bytes() {
    assert!(starts_with_bearer(b"Bearer "));
    assert!(starts_with_bearer(b"Bearer x"));
    assert!(starts_with_bearer(b"Bearer \xff"));
    assert!(!starts_with_bearer(b"Bearer"));
    assert!(!starts_with_bearer(b"Bearex "));
    assert!(!starts_with_bearer(b"bearer "));
    assert!(!starts_with_bearer(b""));
}

#[test]
fn token_travels_in_the_authorization_header() {
    assert_eq!(AUTHORIZATION, "Authorization");
}
