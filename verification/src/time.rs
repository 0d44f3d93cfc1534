//! Calendar time, as far as the library needs it: whether an instant given in
//! seconds since the Unix epoch can be represented, and how it is written.
//!
//! The calendar arithmetic is chrono's. The two functions that call it are
//! trusted: their contracts name what chrono returns and claim no more of it.

use chrono::{TimeZone, Utc};
use vstd::prelude::*;

verus! {

/// Whether chrono has a UTC date-time for the instant `secs` whole seconds
/// after the Unix epoch.
pub uninterp spec fn utc_representable(secs: int) -> bool;

/// The RFC 3339 text that chrono writes for the UTC instant `secs` whole
/// seconds after the Unix epoch, such as `2015-05-15T00:00:00+00:00`.
pub uninterp spec fn rfc3339_utc(secs: int) -> Seq<char>;

/// Calls `chrono::TimeZone::timestamp_opt` on `Utc` with no nanoseconds and
/// tells whether it yields a date-time. Trusted: the answer is a function of
/// `secs` alone, and where it is `false` the epoch itself (`secs == 0`) still
/// has a date-time.
#[verifier::external_body]
pub(crate) fn utc_datetime_exists(secs: i64) -> (ok: bool)
    ensures
        ok == utc_representable(secs as int),
        !ok ==> utc_representable(0),
{
    Utc.timestamp_opt(secs, 0).single().is_some()
}

/// Calls `chrono::DateTime::to_rfc3339` on the UTC date-time of `secs`.
/// Trusted: the text is a function of `secs` alone.
#[verifier::external_body]
pub(crate) fn utc_rfc3339(secs: i64) -> (text: String)
    requires
        utc_representable(secs as int),
    ensures
        text@ == rfc3339_utc(secs as int),
{
    Utc.timestamp_opt(secs, 0).unwrap().to_rfc3339()
}

/// The instant that stands for a stored timestamp: the timestamp itself where
/// it can be represented, the Unix epoch where it cannot.
pub open spec fn lenient_epoch(secs: i64) -> i64 {
    if utc_representable(secs as int) {
        secs
    } else {
        0
    }
}

/// The date text of a stored timestamp, after the lenient fallback.
pub open spec fn date_text(secs: i64) -> Seq<char> {
    rfc3339_utc(lenient_epoch(secs) as int)
}

/// Decides which instant stands for a stored timestamp, given whether the
/// timestamp can be represented: the timestamp itself where it can, the Unix
/// epoch where it cannot.
pub fn instant_or_epoch(secs: i64, representable: bool) -> (r: i64)
    ensures
        r == if representable { secs } else { 0i64 },
{
    if representable {
        secs
    } else {
        0
    }
}

/// Replaces a timestamp that cannot be represented by the Unix epoch.
pub fn epoch_or_zero(secs: i64) -> (r: i64)
    ensures
        r == lenient_epoch(secs),
        utc_representable(r as int),
{
    let representable = utc_datetime_exists(secs);
    instant_or_epoch(secs, representable)
}

/// Writes a stored timestamp as RFC 3339 text in UTC. A timestamp that cannot
/// be represented is written as the Unix epoch.
pub fn timestamp_to_date(secs: i64) -> (text: String)
    ensures
        text@ == date_text(secs),
{
    let instant = epoch_or_zero(secs);
    utc_rfc3339(instant)
}

} // verus!
