use blog_api::errors::{AppError, AppErrorResponse, AppErrorType};

#[test]
fn test_default_db_error() {
    let db_error = AppError {
        message: None,
        cause: None,
        error_type: AppErrorType::DbError,
    };

    assert_eq!(
        db_error.message(),
        "An unexpected error has occurred".to_string(),
        "Default message should be shown"
    );
}

#[test]
fn test_default_not_found_error() {
    let db_error = AppError {
        message: None,
        cause: None,
        error_type: AppErrorType::NotFoundError,
    };

    assert_eq!(
        db_error.message(),
        "The requested item was not found".to_string(),
        "Default message should be shown"
    );
}

#[test]
fn test_user_db_error() {
    let user_message = "User-facing message".to_string();

    let db_error = AppError {
        message: Some(user_message.clone()),
        cause: None,
        error_type: AppErrorType::DbError,
    };

    assert_eq!(
        db_error.message(),
        user_message,
        "User-facing message should be shown"
    );
}

#[test]
fn test_db_error_status_code() {
    let expected = 500;

    let db_error = AppError {
        message: None,
        cause: None,
        error_type: AppErrorType::DbError,
    };

    assert_eq!(
        db_error.status_code(),
        expected,
        "Status code for DbError should be {}",
        expected
    );
}

#[test]
fn default_invalid_field_message() {
    let e = AppError { message: None, cause: Some("detail".to_string()), error_type: AppErrorType::InvalidField };
    assert_eq!(e.message(), "Invalid value provided");
}

#[test]
fn status_codes_per_kind() {
    let nf = AppError { message: None, cause: None, error_type: AppErrorType::NotFoundError };
    let inv = AppError { message: None, cause: None, error_type: AppErrorType::InvalidField };
    assert_eq!(nf.status_code(), 404);
    assert_eq!(inv.status_code(), 400);
}

#[test]
fn response_body_hides_cause() {
    let e = AppError::db("connection refused".to_string());
    assert_eq!(e.cause.as_deref(), Some("connection refused"));
    let body = AppErrorResponse::from_error(&e);
    assert_eq!(body.error, "An unexpected error has occurred");
}

#[test]
fn duplicate_keeps_every_field() {
    let e = AppError::with_message(AppErrorType::InvalidField, "bad".to_string(), Some("c".to_string()));
    let d = e.duplicate();
    assert_eq!(d.message.as_deref(), Some("bad"));
    assert_eq!(d.cause.as_deref(), Some("c"));
    assert_eq!(d.error_type, AppErrorType::InvalidField);
}
