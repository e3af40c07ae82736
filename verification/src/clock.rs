//! Wall-clock time and its calendar rendering, both taken from the `chrono`
//! crate. The two functions below are the only calls into it; their contracts
//! are assumed, not proved.

use vstd::prelude::*;

verus! {

/// The first second that the calendar can name: midnight of January 1 of the
/// year -262143, counted from the Unix epoch.
pub const MIN_SECONDS: i64 = -8_334_601_228_800;

/// The last second that the calendar can name: the end of December 31 of the
/// year 262142, counted from the Unix epoch.
pub const MAX_SECONDS: i64 = 8_210_266_876_799;

/// Whether `secs` seconds since the Unix epoch plus `nanos` nanoseconds is an
/// instant of the UTC calendar. The nanosecond part reaches into a second
/// billion only to write a leap second, and only in the last second of a
/// minute.
pub open spec fn valid_instant(secs: int, nanos: int) -> bool {
    &&& MIN_SECONDS <= secs <= MAX_SECONDS
    &&& 0 <= nanos < 2_000_000_000
    &&& (nanos >= 1_000_000_000 ==> secs % 60 == 59)
}

/// The RFC 3339 text of an instant, as `chrono` writes it for UTC.
pub uninterp spec fn rfc3339_text(secs: i64, nanos: u32) -> Seq<char>;

/// Reads the system clock with `chrono::Utc::now` and hands back the seconds
/// since the Unix epoch and the nanoseconds within the second
/// (`DateTime::timestamp`, `DateTime::timestamp_subsec_nanos`). Assumed: what
/// comes back is an instant of the calendar, which holds of every
/// `DateTime<Utc>`. Nothing is assumed of which instant it is.
#[verifier::external_body]
pub(crate) fn utc_now() -> (r: (i64, u32))
    ensures
        valid_instant(r.0 as int, r.1 as int),
{
    let now = chrono::Utc::now();
    (now.timestamp(), now.timestamp_subsec_nanos())
}

/// Renders an instant with `chrono::DateTime::<Utc>::to_rfc3339`, after
/// `DateTime::from_timestamp` has rebuilt it from its two numbers. Assumed: the
/// text is a function of the two numbers alone. On a valid instant
/// `from_timestamp` does not fail.
#[verifier::external_body]
pub(crate) fn rfc3339(secs: i64, nanos: u32) -> (r: String)
    requires
        valid_instant(secs as int, nanos as int),
    ensures
        r@ == rfc3339_text(secs, nanos),
{
    match chrono::DateTime::from_timestamp(secs, nanos) {
        Some(instant) => instant.to_rfc3339(),
        None => String::new(),
    }
}

} // verus!
