use vstd::prelude::*;

verus! {

/// A UTC instant as whole seconds since the Unix epoch and the nanoseconds
/// past that second (above 999,999,999 only within a leap second).
#[derive(Debug, Clone, Copy, PartialEq, Eq)]
pub struct Instant {
    pub secs: i64,
    pub nanos: u32,
}

impl View for Instant {
    type V = (int, int);

    open spec fn view(&self) -> (int, int) {
        (self.secs as int, self.nanos as int)
    }
}

pub uninterp spec fn rfc3339_instant(s: Seq<char>) -> Option<(int, int)>;

pub uninterp spec fn millis_between(later: (int, int), earlier: (int, int)) -> Option<int>;

pub uninterp spec fn rfc3339_millis_text(t: (int, int)) -> Option<Seq<char>>;

/// An instant well inside chrono's range (within about 250,000 years of
/// 1970) and not within a leap second.
pub open spec fn is_plain(t: (int, int)) -> bool {
    -8_000_000_000_000 < t.0 < 8_000_000_000_000 && 0 <= t.1 < 1_000_000_000
}

pub open spec fn total_nanos(t: (int, int)) -> int {
    t.0 * 1_000_000_000 + t.1
}

/// Whole milliseconds in `d` nanoseconds, truncated toward zero.
pub open spec fn truncated_millis(d: int) -> int {
    if d >= 0 {
        d / 1_000_000
    } else {
        -((-d) / 1_000_000)
    }
}

/// Milliseconds from `earlier` to `later`: exact for plain instants,
/// whatever chrono computes otherwise.
pub open spec fn millis_delta(later: (int, int), earlier: (int, int)) -> Option<int> {
    if is_plain(later) && is_plain(earlier) {
        Some(truncated_millis(total_nanos(later) - total_nanos(earlier)))
    } else {
        millis_between(later, earlier)
    }
}

/// Relies on chrono's `DateTime::parse_from_rfc3339`: the instant a date-time
/// with offset denotes, or nothing when the text is not one. Its year has
/// four digits, so the instant lies within years -1 to 10000.
#[verifier::external_body]
pub(crate) fn parse_rfc3339(s: &str) -> (r: Option<Instant>)
    ensures
        match r {
            Some(t) => rfc3339_instant(s@) == Some(t@),
            None => rfc3339_instant(s@) is None,
        },
        r matches Some(t) ==> -70_000_000_000 < t.secs < 260_000_000_000,
{
    match chrono::DateTime::parse_from_rfc3339(s) {
        Ok(dt) => Some(Instant { secs: dt.timestamp(), nanos: dt.timestamp_subsec_nanos() }),
        Err(_) => None,
    }
}

/// Relies on chrono's `Utc::now`: the current time, nothing promised of it.
#[verifier::external_body]
pub(crate) fn current_instant() -> (r: Instant) {
    let now = chrono::Utc::now();
    Instant { secs: now.timestamp(), nanos: now.timestamp_subsec_nanos() }
}

/// Relies on chrono's `DateTime::from_timestamp`, `signed_duration_since` and
/// `TimeDelta::num_milliseconds`: the whole milliseconds from `earlier` to
/// `later`, truncated toward zero; zero from an instant to itself. Outside a
/// leap second the difference is exact.
#[verifier::external_body]
pub(crate) fn millis_from(later: Instant, earlier: Instant) -> (r: Option<i64>)
    ensures
        is_plain(later@) && is_plain(earlier@) ==> r == Some(
            truncated_millis(total_nanos(later@) - total_nanos(earlier@)) as i64,
        ),
        !(is_plain(later@) && is_plain(earlier@)) ==> match r {
            Some(m) => millis_between(later@, earlier@) == Some(m as int),
            None => millis_between(later@, earlier@) is None,
        },
        later == earlier ==> (r is None || r == Some(0i64)),
{
    match (
        chrono::DateTime::from_timestamp(later.secs, later.nanos),
        chrono::DateTime::from_timestamp(earlier.secs, earlier.nanos),
    ) {
        (Some(a), Some(b)) => Some(a.signed_duration_since(b).num_milliseconds()),
        _ => None,
    }
}

/// Relies on chrono's `DateTime::from_timestamp` and `to_rfc3339_opts` with
/// millisecond precision and `Z`: the ISO-8601 text of an instant.
#[verifier::external_body]
pub(crate) fn rfc3339_millis(t: Instant) -> (r: Option<String>)
    ensures
        match r {
            Some(s) => rfc3339_millis_text(t@) == Some(s@),
            None => rfc3339_millis_text(t@) is None,
        },
        is_plain(t@) ==> r is Some,
{
    match chrono::DateTime::from_timestamp(t.secs, t.nanos) {
        Some(dt) => Some(dt.to_rfc3339_opts(chrono::SecondsFormat::Millis, true)),
        None => None,
    }
}

} // verus!
