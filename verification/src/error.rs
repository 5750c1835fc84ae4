//! The closed taxonomy of domain errors.

use vstd::prelude::*;

verus! {

/// Every failure the domain layer can report.
///
/// `Validation`, `NotFound` and `AlreadyExists` carry a detail that callers
/// may show to their own users; `Infrastructure` and `Unexpected` carry
/// internal detail that must never be surfaced. `Unexpected` is reserved
/// for conditions not otherwise classified and is currently never produced.
#[derive(Debug)]
pub enum DomainError {
    Validation(String),
    NotFound(String),
    AlreadyExists(String),
    Infrastructure(String),
    Unexpected(String),
}

impl DomainError {
    /// The detail string carried by the error.
    pub fn detail(&self) -> (r: &str)
        ensures
            r@ == self.detail_view(),
    {
        match self {
            DomainError::Validation(m) => m.as_str(),
            DomainError::NotFound(m) => m.as_str(),
            DomainError::AlreadyExists(m) => m.as_str(),
            DomainError::Infrastructure(m) => m.as_str(),
            DomainError::Unexpected(m) => m.as_str(),
        }
    }

    /// The detail string, as a sequence of characters.
    pub open spec fn detail_view(&self) -> Seq<char> {
        match self {
            DomainError::Validation(m) => m@,
            DomainError::NotFound(m) => m@,
            DomainError::AlreadyExists(m) => m@,
            DomainError::Infrastructure(m) => m@,
            DomainError::Unexpected(m) => m@,
        }
    }
}

} // verus!
