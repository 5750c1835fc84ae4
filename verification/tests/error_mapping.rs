use taskcore::api::{ApiError, Health};
use taskcore::db_error::{map_db_error, DbError};
use taskcore::error::DomainError;

#[test]
fn unique_violation_on_email_is_an_email_conflict() {
    let e = DbError {
        code: Some("23505".to_string()),
        message: "duplicate key value violates unique constraint \"users_email_key\""
            .to_string(),
    };
    match map_db_error(&e, "insert", "User") {
        DomainError::AlreadyExists(m) => assert_eq!(m, "Email already exists"),
        _ => panic!("unique violation must be a conflict"),
    }
}

#[test]
fn unique_violation_on_another_column_is_an_entity_conflict() {
    let e = DbError {
        code: Some("23505".to_string()),
        message: "duplicate key value violates unique constraint \"users_pkey\"".to_string(),
    };
    match map_db_error(&e, "insert", "User") {
        DomainError::AlreadyExists(m) => assert_eq!(m, "User already exists"),
        _ => panic!("unique violation must be a conflict"),
    }
}

#[test]
fn foreign_key_violation_is_not_found() {
    let e = DbError {
        code: Some("23503".to_string()),
        message: "insert or update on table \"tasks\" violates foreign key constraint"
            .to_string(),
    };
    match map_db_error(&e, "insert", "Task") {
        DomainError::NotFound(m) => assert_eq!(m, "Task not found"),
        _ => panic!("foreign key violation must be not found"),
    }
}

#[test]
fn any_other_code_is_an_infrastructure_failure() {
    let e = DbError { code: Some("57014".to_string()), message: "query canceled".to_string() };
    match map_db_error(&e, "find", "User") {
        DomainError::Infrastructure(m) => assert_eq!(m, "Failed to find User"),
        _ => panic!("unknown code must be infrastructure"),
    }
}

#[test]
fn a_codeless_error_is_an_infrastructure_failure() {
    let e = DbError { code: None, message: "connection reset by peer".to_string() };
    match map_db_error(&e, "update", "Task") {
        DomainError::Infrastructure(m) => assert_eq!(m, "Failed to update Task"),
        _ => panic!("codeless error must be infrastructure"),
    }
}

#[test]
fn validation_renders_as_400_with_detail() {
    let rendered = ApiError::from(DomainError::Validation("Name cannot be empty".to_string()));
    assert_eq!(rendered.status, 400);
    assert_eq!(rendered.code, "VALIDATION_ERROR");
    assert_eq!(rendered.message, "Name cannot be empty");
}

#[test]
fn not_found_renders_as_404_with_detail() {
    let rendered = ApiError::from(DomainError::NotFound("Task not found".to_string()));
    assert_eq!(rendered.status, 404);
    assert_eq!(rendered.code, "NOT_FOUND");
    assert_eq!(rendered.message, "Task not found");
}

#[test]
fn already_exists_renders_as_409_with_detail() {
    let rendered = ApiError::from(DomainError::AlreadyExists("Email already exists".to_string()));
    assert_eq!(rendered.status, 409);
    assert_eq!(rendered.code, "ALREADY_EXISTS");
    assert_eq!(rendered.message, "Email already exists");
}

#[test]
fn infrastructure_renders_as_500_without_detail() {
    let rendered = ApiError::from(DomainError::Infrastructure(
        "Failed to insert User".to_string(),
    ));
    assert_eq!(rendered.status, 500);
    assert_eq!(rendered.code, "INTERNAL_ERROR");
    assert_eq!(rendered.message, "Internal server error");
}

#[test]
fn unexpected_renders_as_500_without_detail() {
    let rendered = ApiError::from(DomainError::Unexpected("reserved".to_string()));
    assert_eq!(rendered.status, 500);
    assert_eq!(rendered.code, "INTERNAL_ERROR");
    assert_eq!(rendered.message, "Internal server error");
}

#[test]
fn domain_error_exposes_its_detail() {
    assert_eq!(DomainError::Validation("v".to_string()).detail(), "v");
    assert_eq!(DomainError::NotFound("n".to_string()).detail(), "n");
    assert_eq!(DomainError::AlreadyExists("a".to_string()).detail(), "a");
    assert_eq!(DomainError::Infrastructure("i".to_string()).detail(), "i");
    assert_eq!(DomainError::Unexpected("u".to_string()).detail(), "u");
}

#[test]
fn health_reports_ok() {
    let health = Health { status: "ok" };
    assert_eq!(health.status, "ok");
}

#[test]
fn email_mention_is_found_anywhere_in_the_message() {
    let e = DbError {
        code: Some("23505".to_string()),
        message: "email".to_string(),
    };
    match map_db_error(&e, "insert", "User") {
        DomainError::AlreadyExists(m) => assert_eq!(m, "Email already exists"),
        _ => panic!("unique violation must be a conflict"),
    }
    let no_mention = DbError { code: Some("23505".to_string()), message: "emai-l".to_string() };
    match map_db_error(&no_mention, "insert", "User") {
        DomainError::AlreadyExists(m) => assert_eq!(m, "User already exists"),
        _ => panic!("unique violation must be a conflict"),
    }
}
