//! Time on the wire: absolute expiries travel as RFC 3339 strings, the
//! client's expiry option is a human duration such as `1h` or `2d`.
//!
//! Parsing and rendering are outside calls; both depend on their string
//! alone, so their results are named and the contracts state only what the
//! crates' documentation gives.

use vstd::prelude::*;

verus! {

/// Seconds in the default lifetime of a paste: one day.
pub const DEFAULT_TTL_SECS: i64 = 86400;

/// What chrono's DateTime::parse_from_rfc3339 yields for a string, taken
/// as whole seconds since the epoch: nothing when the string is no
/// RFC 3339 timestamp.
pub uninterp spec fn rfc3339_timestamp(s: Seq<char>) -> Option<int>;

/// Relies on chrono's DateTime::parse_from_rfc3339 and its timestamp
/// method: deterministic in the string, refusing exactly the strings that
/// are no RFC 3339 timestamps.
#[verifier::external_body]
pub fn parse_rfc3339(s: &str) -> (r: Option<i64>)
    ensures
        r is Some <==> rfc3339_timestamp(s@) is Some,
        r matches Some(t) ==> rfc3339_timestamp(s@) == Some(t as int),
{
    chrono::DateTime::parse_from_rfc3339(s).ok().map(|d| d.timestamp())
}

/// What rendering a timestamp (whole seconds since the epoch) as RFC 3339
/// yields.
pub uninterp spec fn rfc3339_render(t: int) -> Seq<char>;

/// The least timestamp whose RFC 3339 rendering carries a four-digit
/// year: the first second of year 0000. Chrono renders earlier years with
/// an explicit sign, which a strict RFC 3339 parser refuses.
pub const RFC3339_MIN_TS: i64 = -62167219200;

/// The greatest timestamp whose RFC 3339 rendering carries a four-digit
/// year: the last second of year 9999.
pub const RFC3339_MAX_TS: i64 = 253402300799;

/// Relies on chrono's DateTime::from_timestamp, which holds every second
/// of the years 0000 through 9999, and on to_rfc3339, whose rendering of
/// those years carries a four-digit year and parses back to the instant
/// it was made from. Later and earlier instants are left out: chrono
/// renders their years with an explicit sign, which its own strict
/// RFC 3339 parser refuses.
#[verifier::external_body]
pub fn render_rfc3339(t: i64) -> (r: String)
    requires
        RFC3339_MIN_TS <= t <= RFC3339_MAX_TS,
    ensures
        r@ == rfc3339_render(t as int),
        rfc3339_timestamp(r@) == Some(t as int),
{
    chrono::DateTime::from_timestamp(t, 0).unwrap().to_rfc3339()
}

/// What humantime's parse_duration yields for a string, taken as whole
/// seconds: nothing when the string is no duration.
pub uninterp spec fn duration_secs(s: Seq<char>) -> Option<int>;

/// Relies on humantime's parse_duration, taken as whole seconds:
/// deterministic in the string, refusing exactly the strings that are no
/// durations.
#[verifier::external_body]
pub fn parse_duration(s: &str) -> (r: Option<u64>)
    ensures
        r is Some <==> duration_secs(s@) is Some,
        r matches Some(d) ==> duration_secs(s@) == Some(d as int),
{
    humantime::parse_duration(s).ok().map(|d| d.as_secs())
}

} // verus!
