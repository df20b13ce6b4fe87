use blog_core::error::{AppError, StorageError, DUPLICATE_KEY};

fn storage(code: Option<i32>, message: &str) -> StorageError {
    StorageError { code, message: message.to_string() }
}

#[test]
fn each_kind_has_its_status() {
    assert_eq!(AppError::Auth("a".to_string()).status_code(), 401);
    assert_eq!(AppError::BadRequest("b".to_string()).status_code(), 400);
    assert_eq!(AppError::NotFound("n".to_string()).status_code(), 404);
    assert_eq!(AppError::MongoDb(storage(None, "down")).status_code(), 500);
    assert_eq!(AppError::MongoDb(storage(Some(DUPLICATE_KEY), "dup")).status_code(), 500);
}

#[test]
fn message_is_the_inner_text() {
    assert_eq!(AppError::Auth("Invalid token".to_string()).message(), "Invalid token");
    assert_eq!(AppError::BadRequest("Invalid ID".to_string()).message(), "Invalid ID");
    assert_eq!(AppError::NotFound("Post not found".to_string()).message(), "Post not found");
    assert_eq!(AppError::MongoDb(storage(Some(2), "server gone")).message(), "server gone");
    assert_eq!(AppError::Auth(String::new()).message(), "");
}

#[test]
fn description_names_the_kind() {
    assert_eq!(AppError::Auth("x".to_string()).describe(), "Authentication error:x");
    assert_eq!(AppError::BadRequest("x".to_string()).describe(), "Bad Request :x");
    assert_eq!(AppError::NotFound("x".to_string()).describe(), "Not found :x");
    assert_eq!(AppError::MongoDb(storage(None, "x")).describe(), "MongoDb error: x");
}

#[test]
fn storage_failure_becomes_a_server_error() {
    let e = AppError::from(storage(Some(50), "timeout"));
    assert_eq!(e, AppError::MongoDb(storage(Some(50), "timeout")));
    assert_eq!(e.status_code(), 500);
}

#[test]
fn duplicate_key_has_code_11000() {
    assert_eq!(DUPLICATE_KEY, 11000);
    assert!(storage(Some(11000), "E11000").is_duplicate_key());
    assert!(!storage(Some(11001), "other").is_duplicate_key());
    assert!(!storage(Some(0), "other").is_duplicate_key());
    assert!(!storage(None, "E11000").is_duplicate_key());
}
