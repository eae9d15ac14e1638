//! Timestamps: the wall-clock value a timesheet field denotes, and the typed
//! start and end of an activity.
use crate::parse_error::DateTimeParseError;
use chrono::{Datelike, Timelike};
use vstd::prelude::*;

verus! {

/// A wall-clock date and time, second precision, no zone arithmetic: the
/// value is interpreted in the host's local time zone.
#[derive(Debug, PartialEq, Eq, Structural, Clone, Copy)]
pub struct Timestamp {
    pub year: i32,
    pub month: u8,
    pub day: u8,
    pub hour: u8,
    pub minute: u8,
    pub second: u8,
}

impl Timestamp {
    pub fn new(year: i32, month: u8, day: u8, hour: u8, minute: u8, second: u8) -> (r: Self)
        ensures
            r == (Timestamp { year, month, day, hour, minute, second }),
    {
        Timestamp { year, month, day, hour, minute, second }
    }
}

/// What the date-time parser yields for the given characters: a function of
/// the input alone; `None` when the input does not have the expected shape.
pub uninterp spec fn timestamp_of(s: Seq<char>) -> Option<Timestamp>;

/// Relies on chrono's `FromStr` for `NaiveDateTime`: it parses the fixed
/// shape year-month-day, `T`, hour:minute:second (an optional fraction of a
/// second is accepted and discarded), and its result is a function of the
/// input characters alone.
#[verifier::external_body]
fn parse_datetime(s: &str) -> (r: Option<Timestamp>)
    ensures
        r == timestamp_of(s@),
{
    match s.parse::<chrono::NaiveDateTime>() {
        Ok(t) => Some(Timestamp {
            year: t.year(),
            month: t.month() as u8,
            day: t.day() as u8,
            hour: t.hour() as u8,
            minute: t.minute() as u8,
            second: t.second() as u8,
        }),
        Err(_) => None,
    }
}

/// The start of an activity.
#[derive(Debug, PartialEq, Eq, Structural, Clone, Copy)]
pub struct Start {
    pub date: Timestamp,
}

impl Start {
    pub fn new(date: Timestamp) -> (r: Self)
        ensures
            r.date == date,
    {
        Start { date }
    }
}

/// The end of an activity.
#[derive(Debug, PartialEq, Eq, Structural, Clone, Copy)]
pub struct End {
    pub date: Timestamp,
}

impl End {
    pub fn new(date: Timestamp) -> (r: Self)
        ensures
            r.date == date,
    {
        End { date }
    }
}

/// Parses a start timestamp; any input the date-time parser rejects yields
/// `NotConvertible`.
pub fn start(string: &str) -> (r: Result<Start, DateTimeParseError>)
    ensures
        match r {
            Ok(s) => timestamp_of(string@) == Some(s.date),
            Err(e) => timestamp_of(string@) is None && e == DateTimeParseError::NotConvertible,
        },
{
    match parse_datetime(string) {
        Some(t) => Ok(Start::new(t)),
        None => Err(DateTimeParseError::NotConvertible),
    }
}

/// Parses an end timestamp; any input the date-time parser rejects yields
/// `NotConvertible`.
pub fn end(string: &str) -> (r: Result<End, DateTimeParseError>)
    ensures
        match r {
            Ok(e) => timestamp_of(string@) == Some(e.date),
            Err(e) => timestamp_of(string@) is None && e == DateTimeParseError::NotConvertible,
        },
{
    match parse_datetime(string) {
        Some(t) => Ok(End::new(t)),
        None => Err(DateTimeParseError::NotConvertible),
    }
}

} // verus!
