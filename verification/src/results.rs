use vstd::prelude::*;
use crate::oid::Oid;

verus! {

/// Error taxonomy of the access layer.
///
/// "Not found" is not an error: it surfaces as an empty optional, an empty
/// list, or a zero matched/deleted count.
#[derive(Clone, Copy, Debug, PartialEq, Eq, Structural)]
pub enum ApiError {
    /// The backing store rejected the operation (for the in-memory store:
    /// an insert whose identifier is already present).
    Store,
    /// A caller-supplied id-string is not in the store's identifier text
    /// format (24 hexadecimal characters).
    InvalidIdentifier,
}

/// Outcome of a successful insert: the identifier under which the new
/// document was stored.
#[derive(Clone, Copy, Debug)]
pub struct InsertOneResult {
    pub inserted_id: Oid,
}

/// Outcome of an update: how many documents the filter matched and how
/// many were modified.
#[derive(Clone, Copy, Debug, PartialEq, Eq, Structural)]
pub struct UpdateResult {
    pub matched_count: u64,
    pub modified_count: u64,
}

/// Outcome of a delete: how many documents were removed.
#[derive(Clone, Copy, Debug, PartialEq, Eq, Structural)]
pub struct DeleteResult {
    pub deleted_count: u64,
}

} // verus!
