use vstd::prelude::*;
use crate::oid::Oid;

verus! {

/// Relies on chrono::Utc::now: seconds since the Unix epoch at the moment
/// of the call. The result depends on the wall clock, so nothing is
/// promised of it; callers hand it to verified code as a plain value.
#[verifier::external_body]
pub(crate) fn now_timestamp() -> i64 {
    chrono::Utc::now().timestamp()
}

/// Relies on bson::oid::ObjectId::new: a fresh twelve-byte identifier
/// built from the time, a random value and a counter. The result depends
/// on the clock and on process-local state, so nothing is promised of it.
#[verifier::external_body]
pub(crate) fn fresh_oid() -> Oid {
    Oid { bytes: bson::oid::ObjectId::new().bytes() }
}

} // verus!
