//! The rules of the tool interface: what each tool accepts, what it writes,
//! and how it answers when the database refuses or finds nothing. Running
//! the queries is left to the server around the library.
use vstd::prelude::*;
use crate::text::same_text;

pub mod subject;
pub mod memory;
pub mod task;

verus! {

/// Why the database refused a write, as far as the tools tell failures
/// apart: a unique or foreign-key constraint (with its name, when the
/// database gives one), or anything else.
pub enum DbFailure {
    UniqueViolation(Option<String>),
    ForeignKeyViolation(Option<String>),
    Other,
}

/// A unique-constraint violation of the named constraint.
pub open spec fn is_unique_violation_of(failure: DbFailure, constraint: Seq<char>) -> bool {
    failure matches DbFailure::UniqueViolation(Some(c)) && c@ == constraint
}

/// A foreign-key violation of the named constraint.
pub open spec fn is_foreign_key_violation_of(failure: DbFailure, constraint: Seq<char>) -> bool {
    failure matches DbFailure::ForeignKeyViolation(Some(c)) && c@ == constraint
}

/// Whether `failure` is a unique-constraint violation of `constraint`.
pub fn unique_violation_of(failure: &DbFailure, constraint: &str) -> (r: bool)
    ensures
        r == is_unique_violation_of(*failure, constraint@),
{
    match failure {
        DbFailure::UniqueViolation(Some(c)) => same_text(c.as_str(), constraint),
        _ => false,
    }
}

/// Whether `failure` is a foreign-key violation of `constraint`.
pub fn foreign_key_violation_of(failure: &DbFailure, constraint: &str) -> (r: bool)
    ensures
        r == is_foreign_key_violation_of(*failure, constraint@),
{
    match failure {
        DbFailure::ForeignKeyViolation(Some(c)) => same_text(c.as_str(), constraint),
        _ => false,
    }
}

/// A copy of an optional string.
pub fn clone_option(o: &Option<String>) -> (r: Option<String>)
    ensures
        r == *o,
{
    match o {
        Some(s) => Some(s.clone()),
        None => None,
    }
}

} // verus!
