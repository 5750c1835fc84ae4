//! Translation of storage-engine errors into the domain error taxonomy.
//!
//! This is the one place storage-engine detail may leak into the domain
//! error vocabulary. The rule is deterministic and evaluated in order:
//! a unique-constraint violation whose message references the email
//! column is an email conflict; any other unique-constraint violation is
//! a conflict on the entity; a foreign-key violation means the
//! referenced entity does not exist; anything else is an opaque
//! infrastructure failure whose detail is never surfaced to callers.

use vstd::prelude::*;
use vstd::string::StrSliceExecFns;
use vstd::string::StringExecFns;
use crate::error::DomainError;

verus! {

/// The distilled form of a storage-engine error: the SQLSTATE code, if
/// the engine reported one on a statement, and the engine's message.
/// Errors that carry no SQLSTATE (connection loss, timeouts) have no
/// code and always map to an infrastructure failure.
#[derive(Debug)]
pub struct DbError {
    pub code: Option<String>,
    pub message: String,
}

/// Whether the error carries the given SQLSTATE code.
pub open spec fn has_code(code: Option<String>, what: Seq<char>) -> bool {
    code matches Some(c) && c@ == what
}

/// Whether `needle` occurs contiguously inside `hay`.
pub open spec fn contains_seq(hay: Seq<char>, needle: Seq<char>) -> bool {
    exists|k: int|
        0 <= k && k + needle.len() <= hay.len() && #[trigger] hay.subrange(k, k + needle.len())
            == needle
}

/// Whether `needle` occurs at position `k` of `hay`.
fn matches_at(hay: &str, needle: &str, k: usize) -> (r: bool)
    requires
        k + needle@.len() <= hay@.len(),
    ensures
        r == (hay@.subrange(k as int, k as int + needle@.len()) == needle@),
{
    let hm = hay.unicode_len();
    let n = needle.unicode_len();
    let mut j: usize = 0;
    while j < n
        invariant
            j <= n,
            n == needle@.len(),
            hm == hay@.len(),
            k + n <= hm,
            forall|x: int| 0 <= x < j ==> hay@[k + x] == needle@[x],
        decreases n - j,
    {
        if hay.get_char(k + j) != needle.get_char(j) {
            proof {
                assert(hay@.subrange(k as int, k as int + needle@.len())[j as int] == hay@[k + j]);
            }
            return false;
        }
        j += 1;
    }
    proof {
        assert(hay@.subrange(k as int, k as int + needle@.len()) =~= needle@);
    }
    true
}

/// Whether `needle` occurs anywhere inside `hay`.
fn contains_substring(hay: &str, needle: &str) -> (r: bool)
    ensures
        r == contains_seq(hay@, needle@),
{
    let hn = hay.unicode_len();
    let nn = needle.unicode_len();
    if nn > hn {
        return false;
    }
    if nn == 0 {
        proof {
            assert(hay@.subrange(0, 0 + needle@.len() as int) =~= needle@);
            assert(contains_seq(hay@, needle@));
        }
        return true;
    }
    let mut k: usize = 0;
    while k <= hn - nn
        invariant
            hn == hay@.len(),
            nn == needle@.len(),
            0 < nn <= hn,
            k <= hn - nn + 1,
            forall|x: int|
                0 <= x < k ==> #[trigger] hay@.subrange(x, x + needle@.len()) != needle@,
        decreases hn - nn + 1 - k,
    {
        if matches_at(hay, needle, k) {
            return true;
        }
        k += 1;
    }
    false
}

/// Map a storage-engine error to a `DomainError`, by the rule above.
/// `operation` and `entity` name what was being done, for the messages.
pub fn map_db_error(e: &DbError, operation: &str, entity: &str) -> (r: DomainError)
    ensures
        has_code(e.code, "23505"@) && contains_seq(e.message@, "email"@) ==> (r matches
            DomainError::AlreadyExists(m) && m@ == "Email already exists"@),
        has_code(e.code, "23505"@) && !contains_seq(e.message@, "email"@) ==> (r matches
            DomainError::AlreadyExists(m) && m@ == entity@ + " already exists"@),
        !has_code(e.code, "23505"@) && has_code(e.code, "23503"@) ==> (r matches
            DomainError::NotFound(m) && m@ == entity@ + " not found"@),
        !has_code(e.code, "23505"@) && !has_code(e.code, "23503"@) ==> (r matches
            DomainError::Infrastructure(m) && m@ == "Failed to "@ + operation@ + " "@ + entity@),
{
    let is_unique = match &e.code {
        Some(c) => *c == "23505".to_owned(),
        None => false,
    };
    if is_unique {
        if contains_substring(e.message.as_str(), "email") {
            return DomainError::AlreadyExists("Email already exists".to_owned());
        }
        let mut m = entity.to_owned();
        m.append(" already exists");
        return DomainError::AlreadyExists(m);
    }
    let is_foreign_key = match &e.code {
        Some(c) => *c == "23503".to_owned(),
        None => false,
    };
    if is_foreign_key {
        let mut m = entity.to_owned();
        m.append(" not found");
        return DomainError::NotFound(m);
    }
    let mut m = "Failed to ".to_owned();
    m.append(operation);
    m.append(" ");
    m.append(entity);
    DomainError::Infrastructure(m)
}

} // verus!
