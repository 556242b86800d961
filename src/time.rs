use vstd::prelude::*;

verus! {

/// A point in time, in microseconds since the Unix epoch (UTC).
#[derive(Clone, Copy, Debug, PartialEq, Eq, Structural)]
pub struct Timestamp {
    pub micros: i64,
}

/// Lifetime of a session, in hours.
pub const SESSION_DURATION_HOURS: i64 = 720;

pub const MICROS_PER_HOUR: i64 = 3_600_000_000;

/// Lifetime of a session, in microseconds.
pub const SESSION_DURATION_MICROS: i64 = SESSION_DURATION_HOURS * MICROS_PER_HOUR;

/// The moment a session opened at `created` stops being valid.
pub open spec fn expiry_of(created: Timestamp) -> int {
    created.micros + SESSION_DURATION_MICROS
}

/// Whether a session can still be opened at `now` without the expiry leaving
/// the range of the clock.
pub open spec fn expiry_fits(now: Timestamp) -> bool {
    expiry_of(now) <= i64::MAX
}

impl Timestamp {
    pub fn from_micros(micros: i64) -> (r: Timestamp)
        ensures
            r.micros == micros,
    {
        Timestamp { micros }
    }
}

/// Relies on chrono::Utc::now and DateTime::timestamp_micros: the current
/// time in microseconds since the epoch. Nothing is known of the value.
#[verifier::external_body]
pub(crate) fn now() -> (r: Timestamp) {
    Timestamp { micros: chrono::Utc::now().timestamp_micros() }
}

} // verus!
