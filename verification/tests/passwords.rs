use blog_core::error::AppError;
use blog_core::password::{hash_password, verify_password, HASH_COST};

#[test]
fn cost_is_ten() {
    assert_eq!(HASH_COST, 10);
}

#[test]
fn digest_has_the_bcrypt_shape() {
    let digest = hash_password("pw").unwrap();
    assert_eq!(digest.chars().count(), 60);
    assert!(digest.starts_with("$2b$10$"));
    assert_ne!(digest, "pw");
}

#[test]
fn digest_verifies_its_password_only() {
    let digest = hash_password("correct horse").unwrap();
    assert!(verify_password("correct horse", &digest));
    assert!(!verify_password("correct horsf", &digest));
    assert!(!verify_password("", &digest));
}

#[test]
fn digests_of_one_password_differ() {
    let first = hash_password("pw").unwrap();
    let second = hash_password("pw").unwrap();
    assert_ne!(first, second);
    assert!(verify_password("pw", &first));
    assert!(verify_password("pw", &second));
}

#[test]
fn known_digest_verifies() {
    let digest = "$2b$04$EGdrhbKUv8Oc9vGiXX0HQOxSg445d458Muh7DAHskb6QbtCvdxcie";
    assert!(verify_password("correctbatteryhorsestapler", digest));
    assert!(!verify_password("wrong", digest));
}

#[test]
fn unreadable_digest_passes_no_password() {
    assert!(!verify_password("pw", ""));
    assert!(!verify_password("pw", "pw"));
    assert!(!verify_password("pw", "$2b$10$tooshort"));
    assert!(!verify_password("pw", "$9z$04$EGdrhbKUv8Oc9vGiXX0HQOxSg445d458Muh7DAHskb6QbtCvdxcie"));
    assert!(!verify_password("pw", "$2b$99$EGdrhbKUv8Oc9vGiXX0HQOxSg445d458Muh7DAHskb6QbtCvdxcie"));
}

#[test]
fn empty_password_can_be_hashed() {
    let digest: Result<String, AppError> = hash_password("");
    let digest = digest.unwrap();
    assert!(verify_password("", &digest));
    assert!(!verify_password("x", &digest));
}

#[test]
fn digest_verifies_a_password_of_any_kind() {
    let long = "x".repeat(100);
    for password in ["with\u{0}nul", "p\u{e4}ssw\u{f6}rd \u{1f512}", long.as_str()] {
        let digest = hash_password(password).unwrap();
        assert_eq!(digest.chars().count(), 60);
        assert!(digest.starts_with("$2b$10$"));
        assert!(verify_password(password, &digest), "{:?}", password);
    }
}

#[test]
fn password_that_looks_like_a_digest_is_hashed_like_any_other() {
    let password = "$2b$10$EGdrhbKUv8Oc9vGiXX0HQOxSg445d458Muh7DAHskb6QbtCvdxcie";
    let digest = hash_password(password).unwrap();
    assert_ne!(digest, password);
    assert!(verify_password(password, &digest));
}
