//! Calendar dates and points in time.
//!
//! A [`Date`] is a day of the proleptic Gregorian calendar. Which triples
//! of year, month and day are dates, and how many days lie between two of
//! them, is decided by the `chrono` crate: a date carries the number that
//! `chrono` gives to its day, counted from 1 January of the year 1.
use vstd::prelude::*;

verus! {

/// The number that `chrono` gives to the day `year`-`month`-`day`, with
/// 1 January of the year 1 as day 1; `None` where there is no such day.
pub uninterp spec fn civil_day_number(year: i32, month: u32, day: u32) -> Option<i32>;

/// Trusted: `chrono::NaiveDate::from_ymd_opt`, followed by
/// `Datelike::num_days_from_ce` on the date it made. Returns the named day
/// number.
#[verifier::external_body]
fn outside_day_number(year: i32, month: u32, day: u32) -> (r: Option<i32>)
    ensures
        r == civil_day_number(year, month, day),
{
    match chrono::NaiveDate::from_ymd_opt(year, month, day) {
        Some(date) => Some(chrono::Datelike::num_days_from_ce(&date)),
        None => None,
    }
}

/// A day of the calendar.
#[derive(Clone, Copy, Debug, PartialEq, Eq)]
pub struct Date {
    year: i32,
    month: u32,
    day: u32,
    number: i32,
}

impl Date {
    #[verifier::type_invariant]
    spec fn well_formed(self) -> bool {
        civil_day_number(self.year, self.month, self.day) == Some(self.number)
    }

    pub closed spec fn year_spec(self) -> i32 {
        self.year
    }

    pub closed spec fn month_spec(self) -> u32 {
        self.month
    }

    pub closed spec fn day_spec(self) -> u32 {
        self.day
    }

    /// The day's number, counted from 1 January of the year 1.
    pub closed spec fn number_spec(self) -> i32 {
        self.number
    }

    /// The date with the given fields.
    pub closed spec fn of(year: i32, month: u32, day: u32, number: i32) -> Date {
        Date { year, month, day, number }
    }

    /// How many days `self` lies after `earlier`; negative where it lies
    /// before.
    pub open spec fn days_since_spec(self, earlier: Date) -> int {
        self.number_spec() - earlier.number_spec()
    }

    /// The date `year`-`month`-`day`, or `None` where the calendar has no
    /// such day.
    pub fn from_ymd(year: i32, month: u32, day: u32) -> (r: Option<Date>)
        ensures
            r == match civil_day_number(year, month, day) {
                Some(number) => Some(Date::of(year, month, day, number)),
                None => None,
            },
    {
        match outside_day_number(year, month, day) {
            Some(number) => Some(Date { year, month, day, number }),
            None => None,
        }
    }

    pub fn year(&self) -> (r: i32)
        ensures
            r == self.year_spec(),
    {
        self.year
    }

    pub fn month(&self) -> (r: u32)
        ensures
            r == self.month_spec(),
    {
        self.month
    }

    pub fn day(&self) -> (r: u32)
        ensures
            r == self.day_spec(),
    {
        self.day
    }

    /// The day's number, counted from 1 January of the year 1.
    pub fn number(&self) -> (r: i32)
        ensures
            r == self.number_spec(),
    {
        self.number
    }

    /// How many days `self` lies after `earlier`; negative where it lies
    /// before.
    pub fn days_since(&self, earlier: &Date) -> (r: i64)
        ensures
            r == self.days_since_spec(*earlier),
    {
        self.number as i64 - earlier.number as i64
    }
}

/// A point in time: a day, and the microseconds that have passed of it.
#[derive(Clone, Copy, Debug, PartialEq, Eq)]
pub struct Timestamp {
    pub date: Date,
    pub micros: u64,
}

} // verus!
