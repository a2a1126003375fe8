//! The time of day, from the `chrono` crate.

use chrono::Utc;
use vstd::prelude::*;

verus! {

/// A moment in time: whole seconds since 1970-01-01 00:00:00 UTC, and the
/// nanoseconds past that second.
#[derive(Clone, Copy, Debug, PartialEq, Eq, Structural)]
pub struct Timestamp {
    pub secs: i64,
    pub nanos: u32,
}

/// `Utc::now`, read through `DateTime::timestamp` and
/// `DateTime::timestamp_subsec_nanos`: the current time. Nothing is claimed
/// of it.
#[verifier::external_body]
pub(crate) fn now() -> Timestamp {
    let moment = Utc::now();
    Timestamp { secs: moment.timestamp(), nanos: moment.timestamp_subsec_nanos() }
}

} // verus!
