//! Transport-facing representations and the fixed error rendering.
//!
//! These are the shapes a transport adapter exchanges with callers: the
//! request bodies it extracts, the response bodies it returns, and the
//! deterministic rendering of each domain error kind into a status code,
//! an error code and a message. The audit timestamp of an aggregate is
//! never exposed here.

use vstd::prelude::*;
use crate::entity::Entity;
use crate::error::DomainError;
use crate::task::Task;
use crate::user::User;

verus! {

/// HTTP response body for a user.
#[derive(Debug)]
pub struct UserResponse {
    pub id: String,
    pub name: String,
    pub email: String,
}

impl vstd::std_specs::convert::FromSpecImpl<User> for UserResponse {
    open spec fn obeys_from_spec() -> bool {
        false
    }

    open spec fn from_spec(u: User) -> UserResponse {
        arbitrary()
    }
}

impl From<User> for UserResponse {
    /// The response echoes the user's identifier, name and email; the
    /// audit timestamp is not exposed.
    fn from(u: User) -> (r: UserResponse)
        ensures
            r.id@ == u@.id,
            r.name@ == u@.name,
            r.email@ == u@.email,
    {
        UserResponse {
            id: u.id().value().to_owned(),
            name: u.name().to_owned(),
            email: u.email().value().to_owned(),
        }
    }
}

/// HTTP request body for creating a user.
#[derive(Debug)]
pub struct CreateUserRequest {
    pub name: String,
    pub email: String,
}

/// HTTP request body for updating a user.
#[derive(Debug)]
pub struct UpdateUserRequest {
    pub name: String,
    pub email: String,
}

/// HTTP response body for a task.
#[derive(Debug)]
pub struct TaskResponse {
    pub id: String,
    pub user_id: String,
    pub title: String,
    pub description: String,
    pub completed: bool,
}

impl vstd::std_specs::convert::FromSpecImpl<Task> for TaskResponse {
    open spec fn obeys_from_spec() -> bool {
        false
    }

    open spec fn from_spec(t: Task) -> TaskResponse {
        arbitrary()
    }
}

impl From<Task> for TaskResponse {
    /// The response echoes every caller-visible field of the task; the
    /// audit timestamp is not exposed.
    fn from(t: Task) -> (r: TaskResponse)
        ensures
            r.id@ == t@.id,
            r.user_id@ == t@.user_id,
            r.title@ == t@.title,
            r.description@ == t@.description,
            r.completed == t@.completed,
    {
        TaskResponse {
            id: t.id().value().to_owned(),
            user_id: t.user_id().value().to_owned(),
            title: t.title().to_owned(),
            description: t.description().to_owned(),
            completed: t.is_completed(),
        }
    }
}

/// HTTP request body for creating a task.
#[derive(Debug)]
pub struct CreateTaskRequest {
    pub user_id: String,
    pub title: String,
    pub description: String,
}

/// Query parameter for filtering tasks.
#[derive(Debug)]
pub struct TaskQuery {
    /// Filter by user ID (absent to list all tasks).
    pub user_id: Option<String>,
}

/// Health check response.
#[derive(Debug)]
pub struct Health {
    /// Service status.
    pub status: &'static str,
}

/// The HTTP status that renders each domain error kind.
pub open spec fn status_of(e: DomainError) -> int {
    match e {
        DomainError::Validation(_) => 400,
        DomainError::NotFound(_) => 404,
        DomainError::AlreadyExists(_) => 409,
        DomainError::Infrastructure(_) => 500,
        DomainError::Unexpected(_) => 500,
    }
}

/// The error code that renders each domain error kind.
pub open spec fn code_of(e: DomainError) -> Seq<char> {
    match e {
        DomainError::Validation(_) => "VALIDATION_ERROR"@,
        DomainError::NotFound(_) => "NOT_FOUND"@,
        DomainError::AlreadyExists(_) => "ALREADY_EXISTS"@,
        DomainError::Infrastructure(_) => "INTERNAL_ERROR"@,
        DomainError::Unexpected(_) => "INTERNAL_ERROR"@,
    }
}

/// The message that renders each domain error: the detail is echoed for
/// caller-recoverable kinds, and replaced by a fixed generic message for
/// internal failures, whose detail must never leak to the caller.
pub open spec fn message_of(e: DomainError) -> Seq<char> {
    match e {
        DomainError::Validation(m) => m@,
        DomainError::NotFound(m) => m@,
        DomainError::AlreadyExists(m) => m@,
        DomainError::Infrastructure(_) => "Internal server error"@,
        DomainError::Unexpected(_) => "Internal server error"@,
    }
}

/// API error response: what the transport returns for a domain error.
#[derive(Debug)]
pub struct ApiError {
    /// Error code.
    pub code: &'static str,
    /// Error message.
    pub message: String,
    /// HTTP status code.
    pub status: u16,
}

impl vstd::std_specs::convert::FromSpecImpl<DomainError> for ApiError {
    open spec fn obeys_from_spec() -> bool {
        false
    }

    open spec fn from_spec(e: DomainError) -> ApiError {
        arbitrary()
    }
}

impl From<DomainError> for ApiError {
    /// Render a domain error by the fixed mapping: validation is 400,
    /// not-found is 404, conflict is 409, everything internal is 500
    /// with a generic message.
    fn from(e: DomainError) -> (r: ApiError)
        ensures
            r.status == status_of(e),
            r.code@ == code_of(e),
            r.message@ == message_of(e),
    {
        match e {
            DomainError::Validation(m) => ApiError {
                code: "VALIDATION_ERROR",
                message: m,
                status: 400,
            },
            DomainError::NotFound(m) => ApiError { code: "NOT_FOUND", message: m, status: 404 },
            DomainError::AlreadyExists(m) => ApiError {
                code: "ALREADY_EXISTS",
                message: m,
                status: 409,
            },
            DomainError::Infrastructure(_) => ApiError {
                code: "INTERNAL_ERROR",
                message: "Internal server error".to_owned(),
                status: 500,
            },
            DomainError::Unexpected(_) => ApiError {
                code: "INTERNAL_ERROR",
                message: "Internal server error".to_owned(),
                status: 500,
            },
        }
    }
}

} // verus!
