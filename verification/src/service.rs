//! The CRUD orchestration layer for the in-memory store: the single
//! call surface used by the HTTP boundary. It validates payload shape
//! before any store work and maps store outcomes onto the service
//! error taxonomy.
//!
//! The taxonomy deliberately has no value for an unrecoverable internal
//! state (a corrupted lock around the shared store): that condition
//! must halt request processing at the boundary instead of being
//! returned as a normal error.

use vstd::prelude::*;
use vstd::string::StrSliceExecFns;
use crate::models::{User, UserDTO, UserDtoV, TodoDTO, TodoDtoV};
use crate::memstore::{
    InMemoryStore, contains_id, distinct_ids, same_except, spec_get, spec_remove_id, spec_upsert,
};

verus! {

/// Why a service call did not produce a record.
#[derive(Clone, Copy, PartialEq, Eq, Structural, Debug)]
pub enum ServiceError {
    /// A required payload field is missing or empty; the store is
    /// never reached. Surfaced as a client error.
    Validation,
    /// The identifier is absent. Expected and recoverable, a client
    /// error, not a fault.
    NotFound,
    /// Pool exhaustion, statement preparation or execution failure, or
    /// lost connectivity. Surfaced as a server error.
    Backend,
}

impl ServiceError {
    /// A short human-readable reason; the only error detail a response
    /// body may carry.
    pub fn reason(&self) -> (r: &'static str)
        ensures
            r@ == match *self {
                ServiceError::Validation => "invalid payload"@,
                ServiceError::NotFound => "not found"@,
                ServiceError::Backend => "service unavailable"@,
            },
    {
        match self {
            ServiceError::Validation => "invalid payload",
            ServiceError::NotFound => "not found",
            ServiceError::Backend => "service unavailable",
        }
    }

    /// The one status each failure kind maps to: malformed payloads
    /// and absent identifiers are client errors, backend faults are a
    /// server error.
    pub fn status_code(&self) -> (s: u16)
        ensures
            s == match *self {
                ServiceError::Validation => 400u16,
                ServiceError::NotFound => 404u16,
                ServiceError::Backend => 500u16,
            },
    {
        match self {
            ServiceError::Validation => 400,
            ServiceError::NotFound => 404,
            ServiceError::Backend => 500,
        }
    }
}

/// A user payload is well-formed when both text fields are non-empty.
pub open spec fn user_payload_valid(dto: UserDtoV) -> bool {
    dto.name.len() > 0 && dto.email.len() > 0
}

/// A todo payload is well-formed when the title is non-empty.
pub open spec fn todo_payload_valid(dto: TodoDtoV) -> bool {
    dto.title.len() > 0
}

/// Decides `user_payload_valid` for a concrete payload.
pub fn check_user_payload(dto: &UserDTO) -> (b: bool)
    ensures
        b == user_payload_valid(dto@),
{
    dto.name.as_str().unicode_len() > 0 && dto.email.as_str().unicode_len() > 0
}

/// Decides `todo_payload_valid` for a concrete payload.
pub fn check_todo_payload(dto: &TodoDTO) -> (b: bool)
    ensures
        b == todo_payload_valid(dto@),
{
    dto.title.as_str().unicode_len() > 0
}

/// Create a user. A malformed payload is rejected before the store is
/// touched; a well-formed one always yields the created record, whose
/// fields are the payload's and whose identifier the store chose.
pub fn create_user(store: &mut InMemoryStore, dto: &UserDTO) -> (r: Result<
    User,
    ServiceError,
>)
    requires
        distinct_ids(old(store)@),
    ensures
        distinct_ids(final(store)@),
        match r {
            Ok(u) => user_payload_valid(dto@)
                && u@.name == dto@.name && u@.email == dto@.email
                && final(store)@ == spec_upsert(old(store)@, u@)
                && spec_get(final(store)@, u.id) == Some(u@)
                && same_except(old(store)@, final(store)@, u.id)
                && (!contains_id(old(store)@, u.id)
                    ==> final(store)@.len() == old(store)@.len() + 1),
            Err(e) => e == ServiceError::Validation && !user_payload_valid(dto@)
                && final(store)@ == old(store)@,
        },
{
    if !check_user_payload(dto) {
        return Err(ServiceError::Validation);
    }
    Ok(store.create(dto))
}

/// Read one user. Returns the record held under `id`, and NotFound
/// exactly when the identifier is absent.
pub fn get_user(store: &InMemoryStore, id: u128) -> (r: Result<User, ServiceError>)
    requires
        distinct_ids(store@),
    ensures
        match r {
            Ok(u) => u.id == id && spec_get(store@, id) == Some(u@),
            Err(e) => e == ServiceError::NotFound && !contains_id(store@, id),
        },
{
    match store.get(id) {
        Some(u) => Ok(u),
        None => Err(ServiceError::NotFound),
    }
}

/// List all users: a snapshot copy of every current record. Never
/// fails; the order carries no meaning.
pub fn get_users(store: &InMemoryStore) -> (r: Vec<User>)
    ensures
        r@.len() == store@.len(),
        forall|i: int| 0 <= i < store@.len() ==> (#[trigger] r@[i])@ == store@[i],
{
    store.list()
}

/// Replace one user. A malformed payload is rejected before the store
/// is touched; otherwise every mutable field is overwritten from the
/// payload under an unchanged identifier, and NotFound comes exactly
/// when the identifier is absent. Never creates.
pub fn update_user(store: &mut InMemoryStore, id: u128, dto: &UserDTO) -> (r: Result<
    User,
    ServiceError,
>)
    requires
        distinct_ids(old(store)@),
    ensures
        distinct_ids(final(store)@),
        match r {
            Ok(u) => user_payload_valid(dto@) && contains_id(old(store)@, id)
                && u.id == id && u@.name == dto@.name && u@.email == dto@.email
                && final(store)@ == spec_upsert(old(store)@, u@)
                && spec_get(final(store)@, id) == Some(u@)
                && same_except(old(store)@, final(store)@, id)
                && final(store)@.len() == old(store)@.len(),
            Err(e) => final(store)@ == old(store)@ && match e {
                ServiceError::Validation => !user_payload_valid(dto@),
                ServiceError::NotFound => user_payload_valid(dto@)
                    && !contains_id(old(store)@, id),
                ServiceError::Backend => false,
            },
        },
{
    if !check_user_payload(dto) {
        return Err(ServiceError::Validation);
    }
    match store.update(id, dto) {
        Some(u) => Ok(u),
        None => Err(ServiceError::NotFound),
    }
}

/// Delete one user: terminal and not reversible. Success carries only
/// an acknowledgement; NotFound comes exactly when the identifier is
/// absent, and every other record is untouched either way.
pub fn delete_user(store: &mut InMemoryStore, id: u128) -> (r: Result<(), ServiceError>)
    requires
        distinct_ids(old(store)@),
    ensures
        distinct_ids(final(store)@),
        !contains_id(final(store)@, id),
        same_except(old(store)@, final(store)@, id),
        final(store)@ == spec_remove_id(old(store)@, id),
        match r {
            Ok(()) => contains_id(old(store)@, id)
                && final(store)@.len() + 1 == old(store)@.len(),
            Err(e) => e == ServiceError::NotFound && !contains_id(old(store)@, id)
                && final(store)@ == old(store)@,
        },
{
    if store.delete(id) {
        Ok(())
    } else {
        Err(ServiceError::NotFound)
    }
}

} // verus!
