//! Points in time, and when a cached catalog has gone stale.
//!
//! A cached catalog is fresh while less than six hours have passed since
//! it was fetched, and stale from the sixth hour on. The time of a fetch
//! is kept as RFC 3339 text; `chrono` reads it. A text that cannot be read
//! counts as stale.

use vstd::prelude::*;

verus! {

/// The age, in hours, from which a cached catalog is stale.
pub const CACHE_DURATION_HOURS: u64 = 6;

/// The number of nanoseconds in a second.
pub const NANOS_PER_SECOND: i128 = 1_000_000_000;

/// The number of nanoseconds in an hour.
pub const NANOS_PER_HOUR: i128 = 3_600_000_000_000;

/// A point in time: whole seconds since the Unix epoch, and the
/// nanoseconds that have passed since that second began.
#[derive(Debug, Clone, Copy, PartialEq, Eq)]
pub struct Timestamp {
    pub secs: i64,
    pub nanos: u32,
}

impl Timestamp {
    /// The point in time as nanoseconds since the Unix epoch.
    pub open spec fn as_nanos(self) -> int {
        self.secs * NANOS_PER_SECOND + self.nanos
    }
}

/// The time from `earlier` to `later`, in nanoseconds.
pub open spec fn elapsed_nanos(earlier: Timestamp, later: Timestamp) -> int {
    later.as_nanos() - earlier.as_nanos()
}

/// Whether a catalog fetched at `fetched_at` is fresh at `now`.
pub open spec fn is_fresh(fetched_at: Timestamp, now: Timestamp) -> bool {
    elapsed_nanos(fetched_at, now) < CACHE_DURATION_HOURS * NANOS_PER_HOUR
}

/// Whether a catalog is stale at `now`, given what was read of the time
/// of its fetch: stale where nothing could be read, and otherwise from
/// six hours after the fetch.
pub open spec fn is_expired(fetched_at: Option<Timestamp>, now: Timestamp) -> bool {
    match fetched_at {
        Some(at) => !is_fresh(at, now),
        None => true,
    }
}

/// The seconds and nanoseconds that `chrono` reads from an RFC 3339
/// text, and nothing where it rejects the text.
pub uninterp spec fn rfc3339_reading(text: Seq<char>) -> Option<(i64, u32)>;

/// The point in time that an RFC 3339 text names.
pub open spec fn timestamp_of(text: Seq<char>) -> Option<Timestamp> {
    match rfc3339_reading(text) {
        Some((secs, nanos)) => Some(Timestamp { secs, nanos }),
        None => None,
    }
}

/// `chrono::DateTime::parse_from_rfc3339`, read out with `timestamp` and
/// `timestamp_subsec_nanos`: the same text always gives the same reading,
/// and a text that is rejected gives none.
#[verifier::external_body]
pub(crate) fn read_rfc3339(text: &str) -> (r: Option<(i64, u32)>)
    ensures
        r == rfc3339_reading(text@),
{
    match chrono::DateTime::parse_from_rfc3339(text) {
        Ok(at) => Some((at.timestamp(), at.timestamp_subsec_nanos())),
        Err(_) => None,
    }
}

/// `chrono::Utc::now`, read out with `timestamp` and
/// `timestamp_subsec_nanos`. Nothing is claimed of what the clock shows.
#[verifier::external_body]
pub(crate) fn read_clock() -> (r: (i64, u32)) {
    let now = chrono::Utc::now();
    (now.timestamp(), now.timestamp_subsec_nanos())
}

/// Reads the point in time that an RFC 3339 text names.
pub fn parse_timestamp(text: &str) -> (r: Option<Timestamp>)
    ensures
        r == timestamp_of(text@),
{
    match read_rfc3339(text) {
        Some((secs, nanos)) => Some(Timestamp { secs, nanos }),
        None => None,
    }
}

/// The present moment, as the system clock shows it.
pub fn current_time() -> Timestamp {
    let (secs, nanos) = read_clock();
    Timestamp { secs, nanos }
}

/// Says whether a catalog is stale at `now`, given what was read of the
/// time of its fetch.
pub fn expired_since(fetched_at: Option<Timestamp>, now: Timestamp) -> (r: bool)
    ensures
        r == is_expired(fetched_at, now),
{
    match fetched_at {
        Some(at) => {
            let secs: i128 = now.secs as i128 - at.secs as i128;
            let nanos: i128 = now.nanos as i128 - at.nanos as i128;
            let elapsed: i128 = secs * NANOS_PER_SECOND + nanos;
            assert(elapsed == elapsed_nanos(at, now)) by (nonlinear_arith)
                requires
                    elapsed == (now.secs - at.secs) * NANOS_PER_SECOND + (now.nanos - at.nanos),
            ;
            elapsed >= (CACHE_DURATION_HOURS as i128) * NANOS_PER_HOUR
        },
        None => true,
    }
}

/// Says whether a catalog whose fetch is dated `updated_at` is stale at
/// `now`. A date that cannot be read makes it stale.
pub fn is_cache_expired_at(updated_at: &str, now: Timestamp) -> (r: bool)
    ensures
        r == is_expired(timestamp_of(updated_at@), now),
{
    expired_since(parse_timestamp(updated_at), now)
}

/// Says whether a catalog whose fetch is dated `updated_at` is stale by
/// the system clock: the answer is what the six-hour rule gives for that
/// date at the moment that the clock showed. Whatever the clock shows, a
/// date that cannot be read makes the catalog stale.
pub fn is_cache_expired(updated_at: &str) -> (r: bool)
    ensures
        exists|now: Timestamp| r == #[trigger] is_expired(timestamp_of(updated_at@), now),
        timestamp_of(updated_at@) is None ==> r,
{
    let now = current_time();
    let expired = is_cache_expired_at(updated_at, now);
    assert(expired == is_expired(timestamp_of(updated_at@), now));
    expired
}

} // verus!
