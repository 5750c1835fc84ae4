//! The `Task` aggregate root.

use vstd::prelude::*;
use crate::entity::Entity;
use crate::error::DomainError;
use crate::value_objects::{TaskId, UserId};

verus! {

/// Specification-level value of a `Task`: every field as a plain value.
pub ghost struct TaskView {
    pub id: Seq<char>,
    pub user_id: Seq<char>,
    pub title: Seq<char>,
    pub description: Seq<char>,
    pub completed: bool,
    pub updated_at: Option<i64>,
}

impl TaskView {
    /// The aggregate invariant: the title is never empty.
    pub open spec fn wf(self) -> bool {
        self.title.len() > 0
    }

    /// The same task, marked completed.
    pub open spec fn as_completed(self) -> TaskView {
        TaskView { completed: true, ..self }
    }
}

/// Task aggregate root.
///
/// A task references its owning user by identifier only; the store
/// enforces referential integrity. `completed` transitions only from
/// `false` to `true`, never back. The audit timestamp is write-only, in
/// microseconds since the Unix epoch.
#[derive(Debug)]
pub struct Task {
    id: TaskId,
    user_id: UserId,
    title: String,
    description: String,
    completed: bool,
    updated_at: Option<i64>,
}

impl View for Task {
    type V = TaskView;

    closed spec fn view(&self) -> TaskView {
        TaskView {
            id: self.id@,
            user_id: self.user_id@,
            title: self.title@,
            description: self.description@,
            completed: self.completed,
            updated_at: self.updated_at,
        }
    }
}

impl Clone for Task {
    fn clone(&self) -> (r: Self)
        ensures
            r == *self,
    {
        Task {
            id: self.id.clone(),
            user_id: self.user_id.clone(),
            title: self.title.clone(),
            description: self.description.clone(),
            completed: self.completed,
            updated_at: self.updated_at,
        }
    }
}

impl Entity for Task {
    type Id = TaskId;

    closed spec fn id_spec(&self) -> TaskId {
        self.id
    }

    fn id(&self) -> (r: &TaskId)
        ensures
            r@ == self@.id,
    {
        &self.id
    }
}

impl Task {
    /// Create a new task, validating the invariant: succeeds exactly when
    /// the title is non-empty. A new task starts out not completed.
    pub fn new(id: TaskId, user_id: UserId, title: String, description: String) -> (r: Result<
        Self,
        DomainError,
    >)
        ensures
            r is Ok <==> title@.len() > 0,
            match r {
                Ok(t) => t@ == (TaskView {
                    id: id@,
                    user_id: user_id@,
                    title: title@,
                    description: description@,
                    completed: false,
                    updated_at: None,
                }) && t@.wf(),
                Err(e) => match e {
                    DomainError::Validation(m) => m@ == "Title cannot be empty"@,
                    _ => false,
                },
            },
    {
        if title.as_str().is_empty() {
            return Err(DomainError::Validation("Title cannot be empty".to_owned()));
        }
        Ok(Task { id, user_id, title, description, completed: false, updated_at: None })
    }

    /// Reconstitute a task from persistence. This bypasses validation and
    /// is reserved for rows already persisted under prior validation: a
    /// trusted-input boundary, not a general-purpose constructor.
    pub fn reconstitute(
        id: TaskId,
        user_id: UserId,
        title: String,
        description: String,
        completed: bool,
        updated_at: Option<i64>,
    ) -> (r: Self)
        ensures
            r@ == (TaskView { id: id@, user_id: user_id@, title: title@, description: description@, completed, updated_at }),
    {
        Task { id, user_id, title, description, completed, updated_at }
    }

    /// Get user ID.
    pub fn user_id(&self) -> (r: &UserId)
        ensures
            r@ == self@.user_id,
    {
        &self.user_id
    }

    /// Get task title.
    pub fn title(&self) -> (r: &str)
        ensures
            r@ == self@.title,
    {
        self.title.as_str()
    }

    /// Get task description.
    pub fn description(&self) -> (r: &str)
        ensures
            r@ == self@.description,
    {
        self.description.as_str()
    }

    /// Check if task is completed.
    pub fn is_completed(&self) -> (r: bool)
        ensures
            r == self@.completed,
    {
        self.completed
    }

    /// Mark the task as completed: a one-way transition. Completing an
    /// open task succeeds; completing an already completed task fails with
    /// a validation error and leaves the task unchanged. No operation
    /// transitions a task back to open.
    pub fn complete(&mut self) -> (r: Result<(), DomainError>)
        ensures
            r is Ok <==> !old(self)@.completed,
            match r {
                Ok(()) => final(self)@ == old(self)@.as_completed(),
                Err(e) => *final(self) == *old(self) && match e {
                    DomainError::Validation(m) => m@ == "Task is already completed"@,
                    _ => false,
                },
            },
    {
        if self.completed {
            return Err(DomainError::Validation("Task is already completed".to_owned()));
        }
        self.completed = true;
        Ok(())
    }
}

} // verus!
