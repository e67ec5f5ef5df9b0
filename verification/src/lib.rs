//! Core logic of a pastebin service: short-key generation, URL
//! classification, paste and account storage with uniqueness and
//! ownership invariants, credential verification, session resolution,
//! and the authorization rules for viewing and editing pastes.

use vstd::prelude::*;

pub mod account_store;
pub mod classify;
pub mod creds;
pub mod keygen;
pub mod models;
pub mod mutation;
pub mod paste_store;
pub mod policy;
pub mod query;
pub mod routes;
pub mod schema;
pub mod session;
pub mod strutil;

verus! {

/// The failures a service operation can report.  Uniqueness violations
/// and missing records are recoverable; a credential mismatch is
/// reported uniformly so callers cannot tell an unknown email from a
/// wrong password; a hashing failure is unexpected and fatal to the
/// request.
#[derive(Clone, Copy, Debug, PartialEq, Eq, Structural)]
pub enum ServiceError {
    DuplicateId,
    NotFound,
    AlreadyExists,
    InvalidCredentials,
    HashingError,
}

} // verus!
