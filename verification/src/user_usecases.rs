//! Use cases over the user repository port, one operation each.

use vstd::prelude::*;
use crate::error::DomainError;
use crate::repository::{
    email_taken_by_other, find_user, has_email, inserted_user_row, lemma_find_user_is_some,
    lemma_find_user_key, lemma_remove_user_absent, remove_user, updated_user_rows, UserRepository,
};
use crate::user::{User, UserView};
use crate::value_objects::{email_valid, UserId};

verus! {

/// Command to create a new user.
#[derive(Debug)]
pub struct CreateUserCommand {
    /// User name.
    pub name: String,
    /// User email.
    pub email: String,
}

/// Command to update a user.
#[derive(Debug)]
pub struct UpdateUserCommand {
    /// User name.
    pub name: String,
    /// User email.
    pub email: String,
}

/// Create a user: validate the command, then insert under a freshly
/// generated identifier. Constraint violations surface from the store.
pub fn create_user<R: UserRepository>(repository: &mut R, command: CreateUserCommand) -> (r:
    Result<User, DomainError>)
    ensures
        match r {
            Ok(u) => {
                &&& command.name@.len() > 0 && email_valid(command.email@)
                &&& u@.name == command.name@ && u@.email == command.email@ && u@.updated_at is None
                &&& u@.id.len() == 36
                &&& u@.wf()
                &&& find_user(old(repository).users(), u@.id) is None
                &&& !has_email(old(repository).users(), command.email@)
                &&& inserted_user_row(old(repository).users(), u@, final(repository).users())
            },
            Err(e) => final(repository).users() == old(repository).users() && match e {
                DomainError::Validation(m) => (command.name@.len() == 0 && m@
                    == "Name cannot be empty"@) || (command.name@.len() > 0 && !email_valid(
                    command.email@,
                ) && m@ == "Invalid email format"@),
                DomainError::AlreadyExists(m) => command.name@.len() > 0 && email_valid(
                    command.email@,
                ) && ((m@ == "Email already exists"@ && has_email(
                    old(repository).users(),
                    command.email@,
                )) || m@ == "User already exists"@),
                DomainError::Infrastructure(_) => command.name@.len() > 0 && email_valid(
                    command.email@,
                ),
                _ => false,
            },
        },
{
    let id = UserId::generate();
    let user = match User::new(id, command.name, command.email.as_str()) {
        Ok(u) => u,
        Err(e) => {
            return Err(e);
        },
    };
    match repository.insert(&user) {
        Ok(()) => Ok(user),
        Err(e) => Err(e),
    }
}

/// Get a user by identifier; an absent row is a not-found error.
pub fn get_user<R: UserRepository>(repository: &R, id: &str) -> (r: Result<User, DomainError>)
    ensures
        match r {
            Ok(u) => id@.len() > 0 && find_user(repository.users(), id@) == Some(u@),
            Err(e) => match e {
                DomainError::Validation(m) => id@.len() == 0 && m@ == "User ID cannot be empty"@,
                DomainError::NotFound(m) => id@.len() > 0 && find_user(repository.users(), id@)
                    is None && m@ == "User not found"@,
                DomainError::Infrastructure(_) => id@.len() > 0,
                _ => false,
            },
        },
{
    let user_id = match UserId::new(id) {
        Ok(v) => v,
        Err(e) => {
            return Err(e);
        },
    };
    match repository.find_by_id(&user_id) {
        Ok(Some(u)) => Ok(u),
        Ok(None) => Err(DomainError::NotFound("User not found".to_owned())),
        Err(e) => Err(e),
    }
}

/// List all users, in storage order.
pub fn list_users<R: UserRepository>(repository: &R) -> (r: Result<Vec<User>, DomainError>)
    ensures
        match r {
            Ok(v) => v@.map_values(|u: User| u@) == repository.users(),
            Err(e) => e is Infrastructure,
        },
{
    repository.find_all()
}

/// Update a user: load the current row, re-validate both fields
/// atomically, and persist. The load step guarantees the operation
/// targets a currently existing row.
pub fn update_user<R: UserRepository>(repository: &mut R, id: &str, command: UpdateUserCommand)
    -> (r: Result<User, DomainError>)
    ensures
        match r {
            Ok(u) => {
                &&& id@.len() > 0
                &&& command.name@.len() > 0 && email_valid(command.email@)
                &&& (find_user(old(repository).users(), id@) matches Some(prev) && u@ == (UserView {
                    id: prev.id,
                    name: command.name@,
                    email: command.email@,
                    updated_at: prev.updated_at,
                }))
                &&& u@.id == id@ && u@.wf()
                &&& !email_taken_by_other(old(repository).users(), id@, command.email@)
                &&& updated_user_rows(old(repository).users(), u@, final(repository).users())
            },
            Err(e) => final(repository).users() == old(repository).users() && match e {
                DomainError::Validation(m) => (id@.len() == 0 && m@ == "User ID cannot be empty"@)
                    || (id@.len() > 0 && find_user(old(repository).users(), id@) is Some && (
                    (command.name@.len() == 0 && m@ == "Name cannot be empty"@) || (
                    command.name@.len() > 0 && !email_valid(command.email@) && m@
                        == "Invalid email format"@))),
                DomainError::NotFound(m) => id@.len() > 0 && find_user(
                    old(repository).users(),
                    id@,
                ) is None && m@ == "User not found"@,
                DomainError::AlreadyExists(m) => id@.len() > 0 && find_user(
                    old(repository).users(),
                    id@,
                ) is Some && command.name@.len() > 0 && email_valid(command.email@) && m@
                    == "Email already exists"@ && email_taken_by_other(
                    old(repository).users(),
                    id@,
                    command.email@,
                ),
                DomainError::Infrastructure(_) => id@.len() > 0,
                _ => false,
            },
        },
{
    let user_id = match UserId::new(id) {
        Ok(v) => v,
        Err(e) => {
            return Err(e);
        },
    };
    let mut user = match repository.find_by_id(&user_id) {
        Ok(Some(u)) => u,
        Ok(None) => {
            return Err(DomainError::NotFound("User not found".to_owned()));
        },
        Err(e) => {
            return Err(e);
        },
    };
    proof {
        lemma_find_user_key(repository.users(), id@);
    }
    match user.update(command.name, command.email.as_str()) {
        Ok(()) => {},
        Err(e) => {
            return Err(e);
        },
    }
    match repository.update(&user) {
        Ok(()) => Ok(user),
        Err(e) => Err(e),
    }
}

/// Delete a user by identifier; a missing row is a not-found error.
/// Deleting a user cascades to the user's tasks in the store.
pub fn delete_user<R: UserRepository>(repository: &mut R, id: &str) -> (r: Result<
    (),
    DomainError,
>)
    ensures
        match r {
            Ok(()) => {
                &&& id@.len() > 0
                &&& find_user(old(repository).users(), id@) is Some
                &&& final(repository).users() == remove_user(old(repository).users(), id@)
            },
            Err(e) => final(repository).users() == old(repository).users() && match e {
                DomainError::Validation(m) => id@.len() == 0 && m@ == "User ID cannot be empty"@,
                DomainError::NotFound(m) => id@.len() > 0 && find_user(
                    old(repository).users(),
                    id@,
                ) is None && m@ == "User not found"@,
                DomainError::Infrastructure(_) => id@.len() > 0,
                _ => false,
            },
        },
{
    let user_id = match UserId::new(id) {
        Ok(v) => v,
        Err(e) => {
            return Err(e);
        },
    };
    match repository.delete(&user_id) {
        Ok(true) => Ok(()),
        Ok(false) => {
            proof {
                lemma_find_user_is_some(old(repository).users(), id@);
                lemma_remove_user_absent(old(repository).users(), id@);
            }
            Err(DomainError::NotFound("User not found".to_owned()))
        },
        Err(e) => Err(e),
    }
}

} // verus!
