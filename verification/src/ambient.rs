//! The two ambient values the mutation service consumes: fresh identifiers
//! and the current time. Both come from outside crates and depend on chance
//! or on the clock, so nothing is promised of either; every caller states
//! what holds of its result whatever value came back.

use vstd::prelude::*;

verus! {

/// Relies on `uuid::Uuid::new_v4`: a freshly drawn random (version 4) UUID,
/// carried as its 128-bit value. The result is random, so nothing is
/// promised of it.
#[verifier::external_body]
pub fn fresh_id() -> u128 {
    uuid::Uuid::new_v4().as_u128()
}

/// Relies on `chrono::Utc::now` and `DateTime::timestamp_micros`: the
/// current wall-clock time, as microseconds since the Unix epoch. The
/// result depends on the clock, so nothing is promised of it.
#[verifier::external_body]
pub fn now_micros() -> i64 {
    chrono::Utc::now().timestamp_micros()
}

} // verus!
