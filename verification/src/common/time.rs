//! Points in time as plain values, and how the print views show them.
//!
//! A point in time is held as seconds since the Unix epoch and the
//! nanoseconds of the second; rendering it in a time zone is left to
//! `chrono` and `chrono-tz` (see the trusted functions below).

use crate::common::value_object::opt_text;
use std::fmt::Write;
use vstd::prelude::*;

verus! {

/// A point in time: whole seconds since 1970-01-01 00:00:00 UTC and the
/// nanoseconds past that second.
#[derive(Debug, Clone, Copy, PartialEq, Eq)]
pub struct Timestamp {
    pub secs: i64,
    pub nanos: u32,
}

/// A point in time together with the UTC offset (in seconds east of UTC)
/// it was recorded in.
#[derive(Debug, Clone, Copy, PartialEq, Eq)]
pub struct OffsetTimestamp {
    pub at: Timestamp,
    pub offset_secs: i32,
}

/// The text that `chrono` gives for the instant `secs`/`nanos` shown in the
/// IANA time zone named `zone` with the `strftime`-style `format`, if the
/// zone is known to `chrono-tz`, the instant is representable and the
/// format renders.
pub uninterp spec fn zoned_time_text(secs: i64, nanos: u32, zone: Seq<char>, format: Seq<char>) -> Option<Seq<char>>;

/// Renders an instant in a named time zone: `chrono_tz::Tz::from_str` for
/// the zone, `chrono::DateTime::from_timestamp` for the instant, then
/// `with_timezone` and `format`, written into a `String`. Claimed: the
/// outcome depends on the four arguments alone (`zoned_time_text`); what
/// the zone's rules and the format language produce is left to the crates.
#[verifier::external_body]
fn format_in_zone(secs: i64, nanos: u32, zone: &str, format: &str) -> (r: Option<String>)
    ensures
        match r {
            Some(s) => zoned_time_text(secs, nanos, zone@, format@) == Some(s@),
            None => zoned_time_text(secs, nanos, zone@, format@) is None,
        },
{
    let tz = zone.parse::<chrono_tz::Tz>().ok()?;
    let at = chrono::DateTime::from_timestamp(secs, nanos)?;
    let mut text = String::new();
    match write!(text, "{}", at.with_timezone(&tz).format(format)) {
        Ok(()) => Some(text),
        Err(_) => None,
    }
}

/// The RFC 3339 text that `chrono` gives for an instant seen at a fixed UTC
/// offset, if the instant and the offset are representable.
pub uninterp spec fn rfc3339_text(secs: i64, nanos: u32, offset_secs: i32) -> Option<Seq<char>>;

/// `chrono::DateTime::to_rfc3339` of the instant at the fixed offset
/// (`FixedOffset::east_opt`, `DateTime::from_timestamp`, `with_timezone`).
/// Claimed: the outcome depends on the three arguments alone
/// (`rfc3339_text`).
#[verifier::external_body]
fn format_rfc3339(secs: i64, nanos: u32, offset_secs: i32) -> (r: Option<String>)
    ensures
        match r {
            Some(s) => rfc3339_text(secs, nanos, offset_secs) == Some(s@),
            None => rfc3339_text(secs, nanos, offset_secs) is None,
        },
{
    let offset = chrono::FixedOffset::east_opt(offset_secs)?;
    let at = chrono::DateTime::from_timestamp(secs, nanos)?;
    Some(at.with_timezone(&offset).to_rfc3339())
}

/// The format the print views show times in: date, time of day, and the
/// name of the zone in brackets.
pub open spec fn print_time_format(zone: Seq<char>) -> Seq<char> {
    "%Y. %m. %d. %H:%M:%S ("@ + zone + ")"@
}

/// How a print view shows an instant in a zone.
pub open spec fn spec_print_time(at: Timestamp, zone: Seq<char>) -> Option<Seq<char>> {
    zoned_time_text(at.secs, at.nanos, zone, print_time_format(zone))
}

/// How a print view shows an optional instant: nothing stays nothing.
pub open spec fn spec_print_time_opt(at: Option<Timestamp>, zone: Seq<char>) -> Option<
    Option<Seq<char>>,
> {
    match at {
        None => Some(None),
        Some(t) => match spec_print_time(t, zone) {
            Some(s) => Some(Some(s)),
            None => None,
        },
    }
}

/// Builds the print format for a zone.
pub fn print_format_for(zone: &str) -> (r: String)
    ensures
        r@ == print_time_format(zone@),
{
    let head = "%Y. %m. %d. %H:%M:%S (".to_owned();
    let with_zone = head.concat(zone);
    with_zone.concat(")")
}

/// Shows an instant in a zone as the print views do; `None` when the zone
/// is unknown or the instant cannot be shown.
pub fn print_time(at: Timestamp, zone: &str) -> (r: Option<String>)
    ensures
        opt_text(r) == spec_print_time(at, zone@),
{
    let format = print_format_for(zone);
    format_in_zone(at.secs, at.nanos, zone, format.as_str())
}

/// Shows an optional instant in a zone; `None` when a present instant
/// cannot be shown.
pub fn print_time_opt(at: Option<Timestamp>, zone: &str) -> (r: Option<Option<String>>)
    ensures
        match r {
            None => spec_print_time_opt(at, zone@) is None,
            Some(o) => spec_print_time_opt(at, zone@) == Some(opt_text(o)),
        },
{
    match at {
        None => Some(None),
        Some(t) => match print_time(t, zone) {
            Some(s) => Some(Some(s)),
            None => None,
        },
    }
}

/// The RFC 3339 text of a point in time at its recorded offset.
pub open spec fn spec_rfc3339(t: OffsetTimestamp) -> Option<Seq<char>> {
    rfc3339_text(t.at.secs, t.at.nanos, t.offset_secs)
}

/// Writes a point in time as RFC 3339 text at its recorded offset.
pub fn rfc3339(t: OffsetTimestamp) -> (r: Option<String>)
    ensures
        opt_text(r) == spec_rfc3339(t),
{
    format_rfc3339(t.at.secs, t.at.nanos, t.offset_secs)
}

} // verus!
