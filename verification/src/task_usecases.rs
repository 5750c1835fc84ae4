//! Use cases over the task repository port, one operation each.

use vstd::prelude::*;
use crate::error::DomainError;
use crate::repository::{
    find_task, inserted_task_row, lemma_find_task_is_some, lemma_find_task_key,
    lemma_remove_task_absent, remove_task, tasks_of_user, updated_task_rows, TaskRepository,
};
use crate::task::Task;
use crate::value_objects::{TaskId, UserId};

verus! {

/// Command to create a new task.
#[derive(Debug)]
pub struct CreateTaskCommand {
    /// User ID who owns the task.
    pub user_id: String,
    /// Task title.
    pub title: String,
    /// Task description.
    pub description: String,
}

/// Create a task: validate the command, then insert under a freshly
/// generated identifier. The owning user's existence is not pre-checked;
/// it is enforced by the store's referential integrity at the point of
/// write and surfaces as a not-found error.
pub fn create_task<R: TaskRepository>(repository: &mut R, command: CreateTaskCommand) -> (r:
    Result<Task, DomainError>)
    ensures
        final(repository).user_ids() == old(repository).user_ids(),
        match r {
            Ok(t) => {
                &&& command.user_id@.len() > 0 && command.title@.len() > 0
                &&& t@.user_id == command.user_id@ && t@.title == command.title@ && t@.description
                    == command.description@ && !t@.completed && t@.updated_at is None
                &&& t@.id.len() == 36
                &&& t@.wf()
                &&& find_task(old(repository).tasks(), t@.id) is None
                &&& old(repository).user_ids().contains(command.user_id@)
                &&& inserted_task_row(old(repository).tasks(), t@, final(repository).tasks())
            },
            Err(e) => final(repository).tasks() == old(repository).tasks() && match e {
                DomainError::Validation(m) => (command.user_id@.len() == 0 && m@
                    == "User ID cannot be empty"@) || (command.user_id@.len() > 0
                    && command.title@.len() == 0 && m@ == "Title cannot be empty"@),
                DomainError::NotFound(m) => command.user_id@.len() > 0 && command.title@.len() > 0
                    && m@ == "Task not found"@ && !old(repository).user_ids().contains(
                    command.user_id@,
                ),
                DomainError::AlreadyExists(m) => command.user_id@.len() > 0
                    && command.title@.len() > 0 && m@ == "Task already exists"@,
                DomainError::Infrastructure(_) => command.user_id@.len() > 0
                    && command.title@.len() > 0,
                _ => false,
            },
        },
{
    let user_id = match UserId::new(command.user_id.as_str()) {
        Ok(v) => v,
        Err(e) => {
            return Err(e);
        },
    };
    let task = match Task::new(TaskId::generate(), user_id, command.title, command.description) {
        Ok(t) => t,
        Err(e) => {
            return Err(e);
        },
    };
    match repository.insert(&task) {
        Ok(()) => Ok(task),
        Err(e) => Err(e),
    }
}

/// Get a task by identifier; an absent row is a not-found error.
pub fn get_task<R: TaskRepository>(repository: &R, id: &str) -> (r: Result<Task, DomainError>)
    ensures
        match r {
            Ok(t) => id@.len() > 0 && find_task(repository.tasks(), id@) == Some(t@),
            Err(e) => match e {
                DomainError::Validation(m) => id@.len() == 0 && m@ == "Task ID cannot be empty"@,
                DomainError::NotFound(m) => id@.len() > 0 && find_task(repository.tasks(), id@)
                    is None && m@ == "Task not found"@,
                DomainError::Infrastructure(_) => id@.len() > 0,
                _ => false,
            },
        },
{
    let task_id = match TaskId::new(id) {
        Ok(v) => v,
        Err(e) => {
            return Err(e);
        },
    };
    match repository.find_by_id(&task_id) {
        Ok(Some(t)) => Ok(t),
        Ok(None) => Err(DomainError::NotFound("Task not found".to_owned())),
        Err(e) => Err(e),
    }
}

/// List tasks: all of them, or only those owned by the given user.
pub fn list_tasks<R: TaskRepository>(repository: &R, user_id: Option<&str>) -> (r: Result<
    Vec<Task>,
    DomainError,
>)
    ensures
        match r {
            Ok(v) => match user_id {
                Some(uid) => uid@.len() > 0 && v@.map_values(|t: Task| t@) == tasks_of_user(
                    repository.tasks(),
                    uid@,
                ),
                None => v@.map_values(|t: Task| t@) == repository.tasks(),
            },
            Err(e) => match e {
                DomainError::Validation(m) => user_id matches Some(uid) && uid@.len() == 0 && m@
                    == "User ID cannot be empty"@,
                DomainError::Infrastructure(_) => (user_id matches Some(uid) ==> uid@.len() > 0),
                _ => false,
            },
        },
{
    match user_id {
        Some(id) => {
            let uid = match UserId::new(id) {
                Ok(v) => v,
                Err(e) => {
                    return Err(e);
                },
            };
            repository.find_by_user_id(&uid)
        },
        None => repository.find_all(),
    }
}

/// Complete a task: load the current row, apply the one-way transition,
/// and persist. Completing an already completed task fails with a
/// validation error and changes nothing.
pub fn complete_task<R: TaskRepository>(repository: &mut R, id: &str) -> (r: Result<
    Task,
    DomainError,
>)
    ensures
        final(repository).user_ids() == old(repository).user_ids(),
        match r {
            Ok(t) => {
                &&& id@.len() > 0
                &&& (find_task(old(repository).tasks(), id@) matches Some(prev) && !prev.completed
                    && t@ == prev.as_completed())
                &&& t@.id == id@ && t@.completed
                &&& updated_task_rows(old(repository).tasks(), t@, final(repository).tasks())
            },
            Err(e) => final(repository).tasks() == old(repository).tasks() && match e {
                DomainError::Validation(m) => (id@.len() == 0 && m@ == "Task ID cannot be empty"@)
                    || (id@.len() > 0 && (find_task(old(repository).tasks(), id@) matches Some(
                    prev,
                ) && prev.completed) && m@ == "Task is already completed"@),
                DomainError::NotFound(m) => id@.len() > 0 && find_task(
                    old(repository).tasks(),
                    id@,
                ) is None && m@ == "Task not found"@,
                DomainError::Infrastructure(_) => id@.len() > 0,
                _ => false,
            },
        },
{
    let task_id = match TaskId::new(id) {
        Ok(v) => v,
        Err(e) => {
            return Err(e);
        },
    };
    let mut task = match repository.find_by_id(&task_id) {
        Ok(Some(t)) => t,
        Ok(None) => {
            return Err(DomainError::NotFound("Task not found".to_owned()));
        },
        Err(e) => {
            return Err(e);
        },
    };
    proof {
        lemma_find_task_key(repository.tasks(), id@);
    }
    match task.complete() {
        Ok(()) => {},
        Err(e) => {
            return Err(e);
        },
    }
    match repository.update(&task) {
        Ok(()) => Ok(task),
        Err(e) => Err(e),
    }
}

/// Delete a task by identifier; a missing row is a not-found error.
pub fn delete_task<R: TaskRepository>(repository: &mut R, id: &str) -> (r: Result<
    (),
    DomainError,
>)
    ensures
        final(repository).user_ids() == old(repository).user_ids(),
        match r {
            Ok(()) => {
                &&& id@.len() > 0
                &&& find_task(old(repository).tasks(), id@) is Some
                &&& final(repository).tasks() == remove_task(old(repository).tasks(), id@)
            },
            Err(e) => final(repository).tasks() == old(repository).tasks() && match e {
                DomainError::Validation(m) => id@.len() == 0 && m@ == "Task ID cannot be empty"@,
                DomainError::NotFound(m) => id@.len() > 0 && find_task(
                    old(repository).tasks(),
                    id@,
                ) is None && m@ == "Task not found"@,
                DomainError::Infrastructure(_) => id@.len() > 0,
                _ => false,
            },
        },
{
    let task_id = match TaskId::new(id) {
        Ok(v) => v,
        Err(e) => {
            return Err(e);
        },
    };
    match repository.delete(&task_id) {
        Ok(true) => Ok(()),
        Ok(false) => {
            proof {
                lemma_find_task_is_some(old(repository).tasks(), id@);
                lemma_remove_task_absent(old(repository).tasks(), id@);
            }
            Err(DomainError::NotFound("Task not found".to_owned()))
        },
        Err(e) => Err(e),
    }
}

} // verus!
