//! Reading the weekday and the hour off a wall-clock timestamp.

use chrono::{Datelike, NaiveDateTime, Timelike};
use vstd::prelude::*;

verus! {

/// chrono's `NaiveDateTime`: a calendar date and a time of day, without a
/// time zone. Here it carries a commit's local wall-clock time.
#[verifier::external_type_specification]
#[verifier::external_body]
pub struct ExNaiveDateTime(NaiveDateTime);

/// The weekday of a timestamp, counted in days from Monday, as chrono reports it.
pub uninterp spec fn weekday_from_monday(ts: NaiveDateTime) -> u32;

/// The hour of the day of a timestamp, as chrono reports it.
pub uninterp spec fn hour_of_day(ts: NaiveDateTime) -> u32;

/// Trusted: `Datelike::weekday` of `NaiveDateTime`, followed by
/// `Weekday::num_days_from_monday`. The weekday depends on the timestamp
/// alone, and the count runs from 0 (Monday) to 6 (Sunday).
#[verifier::external_body]
pub(crate) fn weekday_index(ts: &NaiveDateTime) -> (day: u32)
    ensures
        day == weekday_from_monday(*ts),
        day < 7,
{
    ts.weekday().num_days_from_monday()
}

/// Trusted: `Timelike::hour` of `NaiveDateTime`. The hour depends on the
/// timestamp alone and lies in 0..=23.
#[verifier::external_body]
pub(crate) fn hour_index(ts: &NaiveDateTime) -> (hour: u32)
    ensures
        hour == hour_of_day(*ts),
        hour < 24,
{
    ts.hour()
}

/// The cell that each timestamp of a sequence falls into, as (day, hour).
pub open spec fn slots_of(timestamps: Seq<NaiveDateTime>) -> Seq<(u32, u32)> {
    Seq::new(timestamps.len(), |i: int| (weekday_from_monday(timestamps[i]), hour_of_day(timestamps[i])))
}

} // verus!
