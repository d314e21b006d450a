//! The response mapper: from a binding failure or a domain outcome to the
//! status and body of the reply.

use vstd::prelude::*;
use crate::binding::BindingError;

verus! {

/// The error type that the domain operations fail with.
#[verifier::external_type_specification]
#[verifier::external_body]
pub struct ExAnyhowError(anyhow::Error);

/// What a handler answers.
pub enum Reply<T> {
    /// Status 200; the body is the value, serialized.
    Success(T),
    /// Status 404; the body is `ENTITY_NOT_FOUND`.
    NotFound,
    /// Status 500; the body is the error's display string.
    Failure(anyhow::Error),
    /// The request could not be bound; status and body come from the error.
    Rejected(BindingError),
}

impl<T> Reply<T> {
    pub open spec fn spec_status(&self) -> u16 {
        match self {
            Reply::Success(_) => 200,
            Reply::NotFound => 404,
            Reply::Failure(_) => 500,
            Reply::Rejected(e) => e.spec_status(),
        }
    }

    /// The body text of a reply whose body is fixed: a not-found or a
    /// rejected request.
    pub open spec fn spec_fixed_body(&self) -> Option<Seq<char>> {
        match self {
            Reply::NotFound => Some("ENTITY_NOT_FOUND"@),
            Reply::Rejected(e) => Some(e.spec_message()),
            _ => None,
        }
    }

    pub fn status(&self) -> (r: u16)
        ensures
            r == self.spec_status(),
    {
        match self {
            Reply::Success(_) => 200,
            Reply::NotFound => 404,
            Reply::Failure(_) => 500,
            Reply::Rejected(e) => e.status(),
        }
    }

    /// The body text of every reply but a success, whose body is the
    /// serialized value.
    pub fn error_body(&self) -> (r: Option<String>)
        ensures
            self is Success <==> r is None,
            self.spec_fixed_body() matches Some(b) ==> r matches Some(t) && t@ == b,
            self matches Reply::Failure(e) ==> r matches Some(t)
                && vstd::string::to_string_from_display_ensures::<anyhow::Error>(&e, t),
    {
        match self {
            Reply::Success(_) => None,
            Reply::NotFound => Some(String::from_str("ENTITY_NOT_FOUND")),
            Reply::Failure(e) => Some(e.to_string()),
            Reply::Rejected(e) => Some(e.message()),
        }
    }
}

/// The reply to an operation whose failure is an internal error: 200 with
/// the value, or 500 with the error.
pub open spec fn outcome_reply<T>(outcome: Result<T, anyhow::Error>) -> Reply<T> {
    match outcome {
        Ok(v) => Reply::Success(v),
        Err(e) => Reply::Failure(e),
    }
}

/// The reply to a lookup, whose every failure means not found: 200 with the
/// value, or 404.
pub open spec fn lookup_reply<T>(outcome: Result<T, anyhow::Error>) -> Reply<T> {
    match outcome {
        Ok(v) => Reply::Success(v),
        Err(_) => Reply::NotFound,
    }
}

pub fn map_outcome<T>(outcome: Result<T, anyhow::Error>) -> (r: Reply<T>)
    ensures
        r == outcome_reply(outcome),
{
    match outcome {
        Ok(v) => Reply::Success(v),
        Err(e) => Reply::Failure(e),
    }
}

pub fn map_lookup<T>(outcome: Result<T, anyhow::Error>) -> (r: Reply<T>)
    ensures
        r == lookup_reply(outcome),
{
    match outcome {
        Ok(v) => Reply::Success(v),
        Err(_) => Reply::NotFound,
    }
}

} // verus!
