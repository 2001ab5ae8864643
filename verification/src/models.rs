//! The stored entities.

pub mod post;
pub mod user;

use vstd::prelude::*;

verus! {

/// A point in time: the whole seconds since the start of 1970 in UTC, and
/// the nanoseconds into the second.
#[derive(Clone, Copy, Debug, PartialEq, Eq)]
pub struct Timestamp {
    pub seconds: i64,
    pub nanoseconds: u32,
}

/// `chrono::Utc::now`, read off as seconds and nanoseconds. Nothing is
/// claimed of the time that comes back. The outside function gives up where
/// the machine's clock stands before 1970.
#[verifier::external_body]
pub(crate) fn current_time() -> (now: Timestamp) {
    let now = chrono::Utc::now();
    Timestamp { seconds: now.timestamp(), nanoseconds: now.timestamp_subsec_nanos() }
}

} // verus!
