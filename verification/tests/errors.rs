use api::errors::{AppError, DbError, ErrorKind};

#[test]
fn status_codes() {
    assert_eq!(AppError::NotFound("x".to_string()).status_code(), 404);
    assert_eq!(AppError::Conflict("x".to_string()).status_code(), 409);
    assert_eq!(AppError::Unauthorized("x".to_string()).status_code(), 401);
    assert_eq!(AppError::BadRequest("x".to_string()).status_code(), 400);
    assert_eq!(AppError::InternalError("x".to_string()).status_code(), 500);
}

#[test]
fn kind_and_message() {
    let e = AppError::Conflict("taken".to_string());
    assert_eq!(e.kind(), ErrorKind::Conflict);
    assert_eq!(e.message(), "taken");
}

#[test]
fn response_body_is_json_with_the_message() {
    let (status, body) = AppError::BadRequest("Invalid email format".to_string()).into_response();
    assert_eq!(status, 400);
    assert_eq!(body, "{\"error\":\"Invalid email format\"}");

    let (status, body) = AppError::Unauthorized("say \"hi\"\\\n\u{1}é".to_string()).into_response();
    assert_eq!(status, 401);
    assert_eq!(body, "{\"error\":\"say \\\"hi\\\"\\\\\\n\\u0001é\"}");
    let parsed: serde_json::Value = serde_json::from_str(&body).unwrap();
    assert_eq!(parsed["error"], "say \"hi\"\\\n\u{1}é");
}

fn mapped(d: DbError) -> (ErrorKind, String) {
    let e = AppError::from_db_error(d);
    (e.kind(), e.message().clone())
}

#[test]
fn database_errors_are_mapped_without_leaking_details() {
    assert_eq!(mapped(DbError::RowNotFound), (ErrorKind::NotFound, "Resource not found".to_string()));
    assert_eq!(
        mapped(DbError::Database {
            unique_violation: true,
            message: "duplicate key value violates unique constraint \"users_email_key\"".to_string()
        }),
        (ErrorKind::Conflict, "Email already taken".to_string())
    );
    assert_eq!(
        mapped(DbError::Database {
            unique_violation: true,
            message: "duplicate key value violates unique constraint \"users_login_key\"".to_string()
        }),
        (ErrorKind::Conflict, "Login already taken".to_string())
    );
    assert_eq!(
        mapped(DbError::Database { unique_violation: true, message: "other_key".to_string() }),
        (ErrorKind::Conflict, "Unique constraint violation".to_string())
    );
    assert_eq!(
        mapped(DbError::Database { unique_violation: false, message: "users_email_key".to_string() }),
        (ErrorKind::InternalError, "Database error".to_string())
    );
    assert_eq!(mapped(DbError::Other), (ErrorKind::InternalError, "Database error".to_string()));
}

#[test]
fn email_constraint_takes_precedence() {
    assert_eq!(
        mapped(DbError::Database {
            unique_violation: true,
            message: "users_login_key users_email_key".to_string()
        }),
        (ErrorKind::Conflict, "Email already taken".to_string())
    );
}

#[test]
fn database_message_does_not_reach_the_client() {
    let a = mapped(DbError::Database { unique_violation: false, message: "secret table x".to_string() });
    let b = mapped(DbError::Database { unique_violation: false, message: "other detail".to_string() });
    assert_eq!(a, b);
    let a = mapped(DbError::Database { unique_violation: true, message: "pk_sessions".to_string() });
    let b = mapped(DbError::Database { unique_violation: true, message: "anything else".to_string() });
    assert_eq!(a, b);
}

#[test]
fn every_error_status_is_4xx_or_5xx_and_distinct() {
    let statuses: Vec<u16> = vec![
        AppError::NotFound(String::new()).status_code(),
        AppError::Conflict(String::new()).status_code(),
        AppError::Unauthorized(String::new()).status_code(),
        AppError::BadRequest(String::new()).status_code(),
        AppError::InternalError(String::new()).status_code(),
    ];
    for (i, a) in statuses.iter().enumerate() {
        assert!((400..=599).contains(a));
        for b in &statuses[i + 1..] {
            assert_ne!(a, b);
        }
    }
}
