//! Validated value objects: entity identifiers and email addresses.

use vstd::prelude::*;
use crate::error::DomainError;

verus! {

/// What `email_address::EmailAddress::is_valid` accepts: the mailbox
/// grammar of RFC 5321/5322 as that crate implements it. The result is a
/// function of the address characters alone.
pub uninterp spec fn email_valid(s: Seq<char>) -> bool;

/// Relies on `email_address::EmailAddress::is_valid`: a pure parse of the
/// address string with the crate's default options, deciding membership in
/// the email grammar from the characters alone.
#[verifier::external_body]
fn check_email(address: &str) -> (r: bool)
    ensures
        r == email_valid(address@),
{
    email_address::EmailAddress::is_valid(address)
}

/// Relies on `uuid::Uuid::new_v4` and the `Display` impl of `Uuid`: a
/// fresh random (version 4) UUID rendered in the hyphenated form, which is
/// always 36 characters long. Nothing is assumed about which UUID comes
/// back, only its rendered length. `new_v4` aborts the process if the
/// operating system's randomness source fails — an environment condition,
/// like running out of memory, that no precondition over the (empty)
/// argument list could exclude.
#[verifier::external_body]
fn fresh_uuid_string() -> (r: String)
    ensures
        r@.len() == 36,
{
    uuid::Uuid::new_v4().to_string()
}

/// Identifier of a `User`: an opaque non-empty string.
#[derive(Debug)]
pub struct UserId(String);

impl View for UserId {
    type V = Seq<char>;

    closed spec fn view(&self) -> Seq<char> {
        self.0@
    }
}

impl Clone for UserId {
    fn clone(&self) -> (r: Self)
        ensures
            r == *self,
    {
        UserId(self.0.clone())
    }
}

impl PartialEq for UserId {
    fn eq(&self, other: &Self) -> (r: bool) {
        self.0 == other.0
    }
}

impl vstd::std_specs::cmp::PartialEqSpecImpl for UserId {
    open spec fn obeys_eq_spec() -> bool {
        true
    }

    open spec fn eq_spec(&self, other: &Self) -> bool {
        self@ == other@
    }
}

impl Eq for UserId {}

impl UserId {
    /// A fresh, collision-resistant random identifier.
    pub fn generate() -> (r: Self)
        ensures
            r@.len() == 36,
    {
        UserId(fresh_uuid_string())
    }

    /// Validate a caller-supplied identifier: any non-empty string.
    pub fn new(id: &str) -> (r: Result<Self, DomainError>)
        ensures
            r is Ok <==> id@.len() > 0,
            match r {
                Ok(v) => v@ == id@,
                Err(e) => match e {
                    DomainError::Validation(m) => m@ == "User ID cannot be empty"@,
                    _ => false,
                },
            },
    {
        if id.is_empty() {
            return Err(DomainError::Validation("User ID cannot be empty".to_owned()));
        }
        Ok(UserId(id.to_owned()))
    }

    /// Reconstitute from trusted storage without re-validation.
    pub fn from_trusted(value: String) -> (r: Self)
        ensures
            r@ == value@,
    {
        UserId(value)
    }

    pub fn value(&self) -> (r: &str)
        ensures
            r@ == self@,
    {
        self.0.as_str()
    }

    /// The label used in error and not-found messages.
    pub fn entity_name() -> (r: &'static str)
        ensures
            r@ == "User"@,
    {
        "User"
    }
}

/// Identifier of a `Task`: an opaque non-empty string.
#[derive(Debug)]
pub struct TaskId(String);

impl View for TaskId {
    type V = Seq<char>;

    closed spec fn view(&self) -> Seq<char> {
        self.0@
    }
}

impl Clone for TaskId {
    fn clone(&self) -> (r: Self)
        ensures
            r == *self,
    {
        TaskId(self.0.clone())
    }
}

impl PartialEq for TaskId {
    fn eq(&self, other: &Self) -> (r: bool) {
        self.0 == other.0
    }
}

impl vstd::std_specs::cmp::PartialEqSpecImpl for TaskId {
    open spec fn obeys_eq_spec() -> bool {
        true
    }

    open spec fn eq_spec(&self, other: &Self) -> bool {
        self@ == other@
    }
}

impl Eq for TaskId {}

impl TaskId {
    /// A fresh, collision-resistant random identifier.
    pub fn generate() -> (r: Self)
        ensures
            r@.len() == 36,
    {
        TaskId(fresh_uuid_string())
    }

    /// Validate a caller-supplied identifier: any non-empty string.
    pub fn new(id: &str) -> (r: Result<Self, DomainError>)
        ensures
            r is Ok <==> id@.len() > 0,
            match r {
                Ok(v) => v@ == id@,
                Err(e) => match e {
                    DomainError::Validation(m) => m@ == "Task ID cannot be empty"@,
                    _ => false,
                },
            },
    {
        if id.is_empty() {
            return Err(DomainError::Validation("Task ID cannot be empty".to_owned()));
        }
        Ok(TaskId(id.to_owned()))
    }

    /// Reconstitute from trusted storage without re-validation.
    pub fn from_trusted(value: String) -> (r: Self)
        ensures
            r@ == value@,
    {
        TaskId(value)
    }

    pub fn value(&self) -> (r: &str)
        ensures
            r@ == self@,
    {
        self.0.as_str()
    }

    /// The label used in error and not-found messages.
    pub fn entity_name() -> (r: &'static str)
        ensures
            r@ == "Task"@,
    {
        "Task"
    }
}

/// Email address value object, valid only if it matches the email grammar.
#[derive(Debug)]
pub struct Email(String);

impl View for Email {
    type V = Seq<char>;

    closed spec fn view(&self) -> Seq<char> {
        self.0@
    }
}

impl Clone for Email {
    fn clone(&self) -> (r: Self)
        ensures
            r == *self,
    {
        Email(self.0.clone())
    }
}

impl PartialEq for Email {
    fn eq(&self, other: &Self) -> (r: bool) {
        self.0 == other.0
    }
}

impl vstd::std_specs::cmp::PartialEqSpecImpl for Email {
    open spec fn obeys_eq_spec() -> bool {
        true
    }

    open spec fn eq_spec(&self, other: &Self) -> bool {
        self@ == other@
    }
}

impl Eq for Email {}

impl Email {
    /// Create a new email with validation against the email grammar.
    pub fn new(email: &str) -> (r: Result<Self, DomainError>)
        ensures
            r is Ok <==> email_valid(email@),
            match r {
                Ok(v) => v@ == email@,
                Err(e) => match e {
                    DomainError::Validation(m) => m@ == "Invalid email format"@,
                    _ => false,
                },
            },
    {
        if !check_email(email) {
            return Err(DomainError::Validation("Invalid email format".to_owned()));
        }
        Ok(Email(email.to_owned()))
    }

    /// Reconstitute from trusted storage without re-validation.
    pub fn from_trusted(value: String) -> (r: Self)
        ensures
            r@ == value@,
    {
        Email(value)
    }

    pub fn value(&self) -> (r: &str)
        ensures
            r@ == self@,
    {
        self.0.as_str()
    }
}

} // verus!
