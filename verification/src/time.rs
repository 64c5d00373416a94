//! Calendar timestamps as plain integers, and the fixed textual format in
//! which callers hand them in.

use crate::error::{StoreError, StoreErrorView};
use chrono::{Datelike, Timelike};
use vstd::prelude::*;

verus! {

/// The earliest year a timestamp can carry: the first year of chrono's range.
pub const MIN_YEAR: i32 = -262143;

/// The latest year a timestamp can carry: the last year of chrono's range.
pub const MAX_YEAR: i32 = 262142;

/// The one format in which timestamp text is accepted: `YYYY-MM-DD HH:MM:SS`.
pub const TIMESTAMP_FORMAT: &'static str = "%Y-%m-%d %H:%M:%S";

/// Whether `year` has a 29th of February in the proleptic Gregorian calendar.
pub open spec fn is_leap_year(year: int) -> bool {
    year % 4 == 0 && (year % 100 != 0 || year % 400 == 0)
}

/// The number of days of `month` (1 to 12) in `year`.
pub open spec fn days_in_month(year: int, month: int) -> int {
    if month == 2 {
        if is_leap_year(year) {
            29
        } else {
            28
        }
    } else if month == 4 || month == 6 || month == 9 || month == 11 {
        30
    } else {
        31
    }
}

/// A calendar date and wall-clock time with no time zone attached.
///
/// A leap second is written as second 59 with a nanosecond count of one
/// thousand million or more.
#[derive(Clone, Copy, Debug, PartialEq, Eq, Structural)]
pub struct Timestamp {
    pub year: i32,
    pub month: u32,
    pub day: u32,
    pub hour: u32,
    pub minute: u32,
    pub second: u32,
    pub nanosecond: u32,
}

impl Timestamp {
    /// The fields name a day that exists and a time of that day.
    pub open spec fn wf(self) -> bool {
        &&& MIN_YEAR <= self.year <= MAX_YEAR
        &&& 1 <= self.month <= 12
        &&& 1 <= self.day <= days_in_month(self.year as int, self.month as int)
        &&& self.hour < 24
        &&& self.minute < 60
        &&& self.second < 60
        &&& (self.nanosecond < 1_000_000_000 || (self.second == 59 && self.nanosecond
            < 2_000_000_000))
    }

    /// Tells whether the fields name a day that exists and a time of that day.
    pub fn is_valid(&self) -> (r: bool)
        ensures
            r == self.wf(),
    {
        if self.year < MIN_YEAR || self.year > MAX_YEAR {
            return false;
        }
        if self.month < 1 || self.month > 12 || self.day < 1 {
            return false;
        }
        let last = month_length(self.year, self.month);
        self.day <= last && self.hour < 24 && self.minute < 60 && self.second < 60 && (
        self.nanosecond < 1_000_000_000 || (self.second == 59 && self.nanosecond < 2_000_000_000))
    }
}

/// Tells whether `year` is a leap year.
fn leap_year(year: i32) -> (r: bool)
    requires
        MIN_YEAR <= year <= MAX_YEAR,
    ensures
        r == is_leap_year(year as int),
{
    // 262400 is a multiple of 400, so the shifted year leaves the same remainders.
    let shifted: u32 = (year + 262400) as u32;
    proof {
        vstd::arithmetic::div_mod::lemma_mod_multiples_vanish(65600, year as int, 4);
        vstd::arithmetic::div_mod::lemma_mod_multiples_vanish(2624, year as int, 100);
        vstd::arithmetic::div_mod::lemma_mod_multiples_vanish(656, year as int, 400);
    }
    shifted % 4 == 0 && (shifted % 100 != 0 || shifted % 400 == 0)
}

/// The number of days of `month` in `year`.
fn month_length(year: i32, month: u32) -> (r: u32)
    requires
        MIN_YEAR <= year <= MAX_YEAR,
    ensures
        r == days_in_month(year as int, month as int),
{
    if month == 2 {
        if leap_year(year) {
            29
        } else {
            28
        }
    } else if month == 4 || month == 6 || month == 9 || month == 11 {
        30
    } else {
        31
    }
}

/// A moment on the local wall clock, with the zone's distance from UTC at that
/// moment.
#[derive(Clone, Copy, Debug, PartialEq, Eq, Structural)]
pub struct LocalTimestamp {
    /// What the local wall clock shows.
    pub local: Timestamp,
    /// Seconds by which the local wall clock is ahead of UTC.
    pub utc_offset_seconds: i32,
}

impl LocalTimestamp {
    /// The wall-clock fields are well-formed and the offset is under one day.
    pub open spec fn wf(self) -> bool {
        &&& self.local.wf()
        &&& -86_400 < self.utc_offset_seconds < 86_400
    }

    /// Tells whether the wall-clock fields are well-formed and the offset is
    /// under one day.
    pub fn is_valid(&self) -> (r: bool)
        ensures
            r == self.wf(),
    {
        self.local.is_valid() && -86_400 < self.utc_offset_seconds && self.utc_offset_seconds
            < 86_400
    }
}

/// The outcome of reading `text` under the strftime-style `format`: the
/// timestamp read, or the reason why none could be read.
///
/// This names what chrono's `NaiveDateTime::parse_from_str` returns; the
/// library does not restate chrono's grammar.
pub uninterp spec fn strftime_parse(text: Seq<char>, format: Seq<char>) -> Result<
    Timestamp,
    Seq<char>,
>;

/// The outcome of reading `text` in the library's one timestamp format.
pub open spec fn parsed_timestamp(text: Seq<char>) -> Result<Timestamp, Seq<char>> {
    strftime_parse(text, TIMESTAMP_FORMAT@)
}

/// A parse outcome as contracts speak of it: the reason's text by its view.
pub open spec fn outcome_view(outcome: Result<Timestamp, String>) -> Result<Timestamp, Seq<char>> {
    match outcome {
        Ok(t) => Ok(t),
        Err(reason) => Err(reason@),
    }
}

/// Calls chrono's `NaiveDateTime::parse_from_str(text, format)` and hands out
/// the fields of the value read, or the text of chrono's `ParseError`.
///
/// Trusted, for the library's one format: the call returns, its result is a
/// function of the two texts alone, and a value read is a real day and time
/// within chrono's range of years. A second of 60 in the text comes out as
/// second 59 with one thousand million nanoseconds.
#[verifier::external_body]
fn parse_with_format(text: &str, format: &str) -> (r: Result<Timestamp, String>)
    requires
        format@ == TIMESTAMP_FORMAT@,
    ensures
        outcome_view(r) == strftime_parse(text@, format@),
        r matches Ok(t) ==> t.wf(),
{
    match chrono::NaiveDateTime::parse_from_str(text, format) {
        Ok(at) => Ok(
            Timestamp {
                year: at.year(),
                month: at.month(),
                day: at.day(),
                hour: at.hour(),
                minute: at.minute(),
                second: at.second(),
                nanosecond: at.nanosecond(),
            },
        ),
        Err(e) => Err(e.to_string()),
    }
}

/// Reads `text` in the format `YYYY-MM-DD HH:MM:SS`.
pub fn parse_timestamp(text: &str) -> (r: Result<Timestamp, String>)
    ensures
        outcome_view(r) == parsed_timestamp(text@),
        r matches Ok(t) ==> t.wf(),
{
    parse_with_format(text, TIMESTAMP_FORMAT)
}

/// The policy for a timestamp that may be left out: text that cannot be read
/// counts as no timestamp.
pub open spec fn lenient(outcome: Result<Timestamp, Seq<char>>) -> Option<Timestamp> {
    match outcome {
        Ok(t) => Some(t),
        Err(_) => None,
    }
}

/// The policy for a timestamp that must be there: text that cannot be read
/// is an error that carries the reason.
pub open spec fn strict(outcome: Result<Timestamp, Seq<char>>) -> Result<Timestamp, StoreErrorView> {
    match outcome {
        Ok(t) => Ok(t),
        Err(reason) => Err(StoreErrorView::Malformed(reason)),
    }
}

/// What an optional field holds after reading the text given for it, if any.
pub open spec fn optional_timestamp(text: Option<String>) -> Option<Timestamp> {
    match text {
        Some(text) => lenient(parsed_timestamp(text@)),
        None => None,
    }
}

/// A `Result` with a `StoreError` as contracts speak of it.
pub open spec fn strict_view(r: Result<Timestamp, StoreError>) -> Result<Timestamp, StoreErrorView> {
    match r {
        Ok(t) => Ok(t),
        Err(e) => Err(e@),
    }
}

/// Applies the policy for a timestamp that may be left out to a parse
/// outcome.
pub fn accept_optional(outcome: Result<Timestamp, String>) -> (r: Option<Timestamp>)
    ensures
        r == lenient(outcome_view(outcome)),
{
    match outcome {
        Ok(t) => Some(t),
        Err(_) => None,
    }
}

/// Applies the policy for a timestamp that must be there to a parse outcome.
pub fn accept_required(outcome: Result<Timestamp, String>) -> (r: Result<Timestamp, StoreError>)
    ensures
        strict_view(r) == strict(outcome_view(outcome)),
{
    match outcome {
        Ok(t) => Ok(t),
        Err(reason) => Err(StoreError::Malformed(reason)),
    }
}

/// Reads the text of an optional timestamp field.
pub fn parse_optional(text: &Option<String>) -> (r: Option<Timestamp>)
    ensures
        r == optional_timestamp(*text),
        r matches Some(t) ==> t.wf(),
{
    match text {
        Some(text) => accept_optional(parse_timestamp(text.as_str())),
        None => None,
    }
}

/// Reads the text of a required timestamp field.
pub fn parse_required(text: &String) -> (r: Result<Timestamp, StoreError>)
    ensures
        strict_view(r) == strict(parsed_timestamp(text@)),
        r matches Ok(t) ==> t.wf(),
{
    accept_required(parse_timestamp(text.as_str()))
}

/// Calls chrono's `Local::now()` and hands out the wall-clock fields and the
/// offset from UTC.
///
/// Trusted: whatever the clock and the zone, the fields are a real day and
/// time and the offset is under one day. Nothing is claimed of which moment
/// comes out. Like `Local::now()` itself, this panics where the system clock
/// stands before 1970 or chrono finds no offset for the local zone.
#[verifier::external_body]
pub(crate) fn local_now() -> (r: LocalTimestamp)
    ensures
        r.wf(),
{
    let now = chrono::Local::now();
    let at = now.naive_local();
    LocalTimestamp {
        local: Timestamp {
            year: at.year(),
            month: at.month(),
            day: at.day(),
            hour: at.hour(),
            minute: at.minute(),
            second: at.second(),
            nanosecond: at.nanosecond(),
        },
        utc_offset_seconds: now.offset().local_minus_utc(),
    }
}

} // verus!
