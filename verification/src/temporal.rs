//! The service's time line.
//!
//! Every instant is a count of seconds. Request dates arrive as text in the
//! `YYYY-MM-DD hh:mm:ss` shape and are turned into seconds at the boundary;
//! all rules below that boundary are plain integer comparisons.

use vstd::prelude::*;

verus! {

/// The instant that the date-and-time text denotes, if it parses.
pub uninterp spec fn parsed_date(s: Seq<char>) -> Option<i64>;

/// Relies on `chrono::NaiveDateTime::parse_from_str` with the
/// `%Y-%m-%d %H:%M:%S` format and on `NaiveDateTime::and_utc().timestamp()`:
/// both depend on the characters of the input alone, so the outcome is a
/// function of `s` and nothing else.
#[verifier::external_body]
pub fn parse_date_time(s: &str) -> (r: Option<i64>)
    ensures
        r == parsed_date(s@),
{
    match chrono::NaiveDateTime::parse_from_str(s, "%Y-%m-%d %H:%M:%S") {
        Ok(d) => Some(d.and_utc().timestamp()),
        Err(_) => None,
    }
}

/// Relies on `chrono::Utc::now` for the wall clock. The value depends on the
/// machine's clock, so nothing is promised of it; callers state what holds of
/// every reading.
#[verifier::external_body]
pub fn now_seconds() -> i64 {
    chrono::Utc::now().timestamp()
}

pub fn is_valid_date(s: &str) -> (r: bool)
    ensures
        r == (parsed_date(s@) is Some),
{
    parse_date_time(s).is_some()
}

pub open spec fn spec_is_past(date: i64, now: i64) -> bool {
    date < now
}

/// The instant lies strictly before `now`.
pub fn is_past_date(date: i64, now: i64) -> (r: bool)
    ensures
        r == spec_is_past(date, now),
{
    date < now
}

pub fn is_in_past(date: i64, now: i64) -> (r: bool)
    ensures
        r == spec_is_past(date, now),
{
    date < now
}

/// Where a schedule ends: the start moved by `secs`, or the start itself when
/// the move would leave the time line.
pub open spec fn spec_offset_date(start: i64, secs: int) -> i64 {
    if i64::MIN <= start + secs <= i64::MAX {
        (start + secs) as i64
    } else {
        start
    }
}

pub fn offset_date(start: i64, secs: i64) -> (r: i64)
    ensures
        r == spec_offset_date(start, secs as int),
{
    match start.checked_add(secs) {
        Some(v) => v,
        None => start,
    }
}

} // verus!
