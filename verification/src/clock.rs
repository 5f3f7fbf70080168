//! The process clock, read in whole seconds.

use vstd::prelude::*;

verus! {

/// Relies on chrono::Utc::now: the current UTC time in whole seconds since the
/// Unix epoch. The result depends on the wall clock, so nothing is promised
/// of it; callers state what holds for every value handed back.
#[verifier::external_body]
pub fn now_seconds() -> i64 {
    chrono::Utc::now().timestamp()
}

} // verus!
