//! Integration tests for the error handling system.

use capeos::error::{AppError, AppResult};

#[test]
fn test_error_display_messages() {
    let cases: Vec<(AppError, &str)> = vec![
        (AppError::NotFound("item".to_string()), "not found: item"),
        (
            AppError::Unauthorized("bad token".to_string()),
            "unauthorized: bad token",
        ),
        (
            AppError::BadRequest("missing field".to_string()),
            "bad request: missing field",
        ),
        (
            AppError::Internal("db error".to_string()),
            "internal: db error",
        ),
    ];
    for (err, expected) in cases {
        assert_eq!(err.to_string(), expected);
    }
}

#[test]
fn test_app_result_ok() {
    let result: AppResult<i32> = Ok(42);
    assert!(result.is_ok());
    assert_eq!(result.unwrap(), 42);
}

#[test]
fn test_app_result_err() {
    let result: AppResult<i32> = Err(AppError::NotFound("test".to_string()));
    assert!(result.is_err());
}

#[test]
fn test_anyhow_conversion() {
    let anyhow_err = anyhow::Error::msg("something went wrong");
    let app_err: AppError = anyhow_err.into();
    assert!(app_err.to_string().contains("something went wrong"));
}

#[test]
fn error_status_codes() {
    assert_eq!(AppError::NotFound("a".to_string()).status_code(), 404);
    assert_eq!(AppError::Unauthorized("a".to_string()).status_code(), 401);
    assert_eq!(AppError::BadRequest("a".to_string()).status_code(), 400);
    assert_eq!(AppError::Internal("a".to_string()).status_code(), 500);
    assert_eq!(AppError::Anyhow(anyhow::Error::msg("x")).status_code(), 500);
}

#[test]
fn error_response_parts_carry_the_message() {
    let (status, message) = AppError::Unauthorized("bad token".to_string()).response_parts();
    assert_eq!(status, 401);
    assert_eq!(message, "bad token");
    let (status, message) = AppError::Anyhow(anyhow::Error::msg("boom")).response_parts();
    assert_eq!(status, 500);
    assert_eq!(message, "boom");
}
