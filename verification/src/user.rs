//! The `User` aggregate root.

use vstd::prelude::*;
use crate::entity::Entity;
use crate::error::DomainError;
use crate::value_objects::{email_valid, Email, UserId};

verus! {

/// Specification-level value of a `User`: every field as a plain value.
pub ghost struct UserView {
    pub id: Seq<char>,
    pub name: Seq<char>,
    pub email: Seq<char>,
    pub updated_at: Option<i64>,
}

impl UserView {
    /// The aggregate invariant: the name is never empty and the email
    /// always matches the email grammar.
    pub open spec fn wf(self) -> bool {
        self.name.len() > 0 && email_valid(self.email)
    }
}

/// User aggregate root.
///
/// The audit timestamp is write-only: it is kept for persistence and never
/// exposed to callers. It counts microseconds since the Unix epoch, as the
/// persistence adapter assigns it.
#[derive(Debug)]
pub struct User {
    id: UserId,
    name: String,
    email: Email,
    updated_at: Option<i64>,
}

impl View for User {
    type V = UserView;

    closed spec fn view(&self) -> UserView {
        UserView {
            id: self.id@,
            name: self.name@,
            email: self.email@,
            updated_at: self.updated_at,
        }
    }
}

impl Clone for User {
    fn clone(&self) -> (r: Self)
        ensures
            r == *self,
    {
        User {
            id: self.id.clone(),
            name: self.name.clone(),
            email: self.email.clone(),
            updated_at: self.updated_at,
        }
    }
}

impl Entity for User {
    type Id = UserId;

    closed spec fn id_spec(&self) -> UserId {
        self.id
    }

    fn id(&self) -> (r: &UserId)
        ensures
            r@ == self@.id,
    {
        &self.id
    }
}

impl User {
    /// Create a new user, validating the invariant: succeeds exactly when
    /// the name is non-empty and the email matches the email grammar.
    pub fn new(id: UserId, name: String, email: &str) -> (r: Result<Self, DomainError>)
        ensures
            r is Ok <==> name@.len() > 0 && email_valid(email@),
            match r {
                Ok(u) => u@ == (UserView {
                    id: id@,
                    name: name@,
                    email: email@,
                    updated_at: None,
                }) && u@.wf(),
                Err(e) => match e {
                    DomainError::Validation(m) => (name@.len() == 0 && m@
                        == "Name cannot be empty"@) || (name@.len() > 0 && !email_valid(email@)
                        && m@ == "Invalid email format"@),
                    _ => false,
                },
            },
    {
        if name.as_str().is_empty() {
            return Err(DomainError::Validation("Name cannot be empty".to_owned()));
        }
        let email = Email::new(email)?;
        Ok(User { id, name, email, updated_at: None })
    }

    /// Get user name.
    pub fn name(&self) -> (r: &str)
        ensures
            r@ == self@.name,
    {
        self.name.as_str()
    }

    /// Get user email.
    pub fn email(&self) -> (r: &Email)
        ensures
            r@ == self@.email,
    {
        &self.email
    }

    /// Update name and email atomically: both are re-validated, and either
    /// both change or neither does.
    pub fn update(&mut self, name: String, email: &str) -> (r: Result<(), DomainError>)
        ensures
            r is Ok <==> name@.len() > 0 && email_valid(email@),
            match r {
                Ok(()) => final(self)@ == (UserView {
                    id: old(self)@.id,
                    name: name@,
                    email: email@,
                    updated_at: old(self)@.updated_at,
                }) && final(self)@.wf(),
                Err(e) => *final(self) == *old(self) && match e {
                    DomainError::Validation(m) => (name@.len() == 0 && m@
                        == "Name cannot be empty"@) || (name@.len() > 0 && !email_valid(email@)
                        && m@ == "Invalid email format"@),
                    _ => false,
                },
            },
    {
        if name.as_str().is_empty() {
            return Err(DomainError::Validation("Name cannot be empty".to_owned()));
        }
        let email = Email::new(email)?;
        self.name = name;
        self.email = email;
        Ok(())
    }

    /// Reconstitute a user from persistence. This bypasses validation and
    /// is reserved for rows already persisted under prior validation: a
    /// trusted-input boundary, not a general-purpose constructor.
    pub fn reconstitute(id: UserId, name: String, email: Email, updated_at: Option<i64>) -> (r:
        Self)
        ensures
            r@ == (UserView { id: id@, name: name@, email: email@, updated_at }),
    {
        User { id, name, email, updated_at }
    }
}

} // verus!
