//! Calendar days in the proleptic Gregorian calendar.
//!
//! A day is its number, counted so that 1 January of the year 1 is day 1.
//! Differences and comparisons are integer arithmetic on that number; year,
//! day of the month and ISO week come from `chrono`.

use chrono::{Datelike, NaiveDate};
#[allow(unused_imports)]
use vstd::prelude::*;

verus! {

/// The first year of the supported range.
pub const FIRST_YEAR: i32 = -262143;

/// The last year of the supported range.
pub const LAST_YEAR: i32 = 262142;

/// Whether `year` has a 29 February.
pub open spec fn leap_year(year: int) -> bool {
    year % 4 == 0 && (year % 100 != 0 || year % 400 == 0)
}

/// The number of the last day before `year`.
pub open spec fn days_before_year(year: int) -> int {
    365 * (year - 1) + (year - 1) / 4 - (year - 1) / 100 + (year - 1) / 400
}

/// The length of a month.
pub open spec fn days_in_month(year: int, month: int) -> int {
    if month == 2 {
        if leap_year(year) {
            29
        } else {
            28
        }
    } else if month == 4 || month == 6 || month == 9 || month == 11 {
        30
    } else {
        31
    }
}

/// The days of `year` before the first of `month`.
pub open spec fn days_before_month(year: int, month: int) -> int
    decreases month,
{
    if month <= 1 {
        0
    } else {
        days_before_month(year, month - 1) + days_in_month(year, month - 1)
    }
}

/// Whether the calendar has the day `year`-`month`-`day`.
pub open spec fn valid_ymd(year: int, month: int, day: int) -> bool {
    &&& FIRST_YEAR <= year <= LAST_YEAR
    &&& 1 <= month <= 12
    &&& 1 <= day <= days_in_month(year, month)
}

/// The number of the day `year`-`month`-`day`.
pub open spec fn day_number(year: int, month: int, day: int) -> int {
    days_before_year(year) + days_before_month(year, month) + day
}

/// Whether the day `days` lies in `year`.
pub open spec fn in_year(days: int, year: int) -> bool {
    days_before_year(year) < days <= days_before_year(year + 1)
}

/// Whether the day numbered `days` is in the supported range.
pub open spec fn in_range(days: int) -> bool {
    days_before_year(FIRST_YEAR as int) < days <= days_before_year(LAST_YEAR + 1)
}

/// The Thursday of the week, Monday to Sunday, that holds the day `days`.
pub open spec fn thursday_of(days: int) -> int {
    days - (days - 1) % 7 + 3
}

/// `chrono::NaiveDate::from_ymd_opt`, with the date read by `num_days_from_ce`: gives the
/// day number of a calendar day, and `None` exactly when the calendar has no such day or
/// the year is outside the supported range.
#[verifier::external_body]
fn ymd_to_days(year: i32, month: u32, day: u32) -> (r: Option<i32>)
    ensures
        r is Some <==> valid_ymd(year as int, month as int, day as int),
        r is Some ==> r->0 == day_number(year as int, month as int, day as int),
{
    NaiveDate::from_ymd_opt(year, month, day).map(|d| d.num_days_from_ce())
}

/// `chrono::Datelike::year`: the year that holds the day. The number is turned into a
/// `NaiveDate` by `from_num_days_from_ce_opt`, which knows every day in range.
#[verifier::external_body]
fn days_to_year(days: i32) -> (year: i32)
    requires
        in_range(days as int),
    ensures
        FIRST_YEAR <= year <= LAST_YEAR,
        in_year(days as int, year as int),
{
    NaiveDate::from_num_days_from_ce_opt(days).unwrap().year()
}

/// `chrono::Datelike::day`: the day's number in its month, counted from one.
#[verifier::external_body]
fn days_to_day_of_month(days: i32) -> (day: u32)
    requires
        in_range(days as int),
    ensures
        exists|year: int, month: int|
            #[trigger] valid_ymd(year, month, day as int) && day_number(year, month, day as int)
                == days,
{
    NaiveDate::from_num_days_from_ce_opt(days).unwrap().day()
}

/// `chrono::Datelike::iso_week`, read by `IsoWeek::year` and `IsoWeek::week`: a week belongs
/// to the year that holds its Thursday, and the weeks of a year are counted from one.
#[verifier::external_body]
fn days_to_iso_week(days: i32) -> (r: (i32, u32))
    requires
        in_range(days as int),
    ensures
        in_year(thursday_of(days as int), r.0 as int),
        r.1 == (thursday_of(days as int) - days_before_year(r.0 as int) - 1) / 7 + 1,
{
    let week = NaiveDate::from_num_days_from_ce_opt(days).unwrap().iso_week();
    (week.year(), week.week())
}

/// A calendar day.
#[derive(Clone, Copy, Debug, PartialEq, Eq, Structural)]
pub struct Date {
    pub days: i32,
}

impl Date {
    /// Whether the day is in the range that the calendar supports.
    pub open spec fn wf(self) -> bool {
        in_range(self.days as int)
    }

    /// The day `year`-`month`-`day`, where the calendar has one.
    pub fn from_ymd_opt(year: i32, month: u32, day: u32) -> (r: Option<Date>)
        ensures
            r is Some <==> valid_ymd(year as int, month as int, day as int),
            r is Some ==> r->0.wf(),
            r is Some ==> r->0.days == day_number(year as int, month as int, day as int),
    {
        match ymd_to_days(year, month, day) {
            None => None,
            Some(days) => {
                proof {
                    lemma_valid_in_range(year as int, month as int, day as int);
                }
                Some(Date { days })
            },
        }
    }

    /// The year that holds the day.
    pub fn year(&self) -> (year: i32)
        requires
            self.wf(),
        ensures
            FIRST_YEAR <= year <= LAST_YEAR,
            in_year(self.days as int, year as int),
    {
        days_to_year(self.days)
    }

    /// Whether the day is the first of its month.
    pub fn is_first_of_month(&self) -> (r: bool)
        requires
            self.wf(),
        ensures
            r <==> exists|year: int, month: int|
                #[trigger] valid_ymd(year, month, 1) && day_number(year, month, 1) == self.days,
    {
        let day: u32 = days_to_day_of_month(self.days);
        proof {
            let (y, m) = choose|year: int, month: int|
                #[trigger] valid_ymd(year, month, day as int) && day_number(year, month, day as int)
                    == self.days;
            if exists|year: int, month: int|
                #[trigger] valid_ymd(year, month, 1) && day_number(year, month, 1) == self.days {
                let (y1, m1) = choose|year: int, month: int|
                    #[trigger] valid_ymd(year, month, 1) && day_number(year, month, 1)
                        == self.days;
                lemma_ymd_unique(y, m, day as int, y1, m1, 1);
            }
        }
        day == 1
    }

    /// The ISO week of the day: its year and its number in that year.
    pub fn iso_week(&self) -> (r: (i32, u32))
        requires
            self.wf(),
        ensures
            in_year(thursday_of(self.days as int), r.0 as int),
            r.1 == (thursday_of(self.days as int) - days_before_year(r.0 as int) - 1) / 7 + 1,
    {
        days_to_iso_week(self.days)
    }

    /// The days from `earlier` to this day, negative where `earlier` is later.
    pub fn days_since(&self, earlier: Date) -> (r: i64)
        ensures
            r == self.days - earlier.days,
    {
        self.days as i64 - earlier.days as i64
    }

    /// The day `n` days later, where it is in range.
    pub fn checked_add_days(&self, n: i64) -> (r: Option<Date>)
        ensures
            r is Some <==> in_range(self.days + n),
            r is Some ==> r->0.days == self.days + n,
    {
        let first: i64 = -95746129;
        let last: i64 = 95745399;
        proof {
            assert(in_range(first as int) && !in_range(first - 1));
            assert(in_range(last as int) && !in_range(last + 1));
        }
        if n < first - self.days as i64 || n > last - self.days as i64 {
            None
        } else {
            Some(Date { days: (self.days as i64 + n) as i32 })
        }
    }
}

/// Years do not overlap: each ends where the next begins.
proof fn lemma_years_ordered(a: int, b: int)
    requires
        a < b,
    ensures
        days_before_year(a + 1) <= days_before_year(b),
        days_before_year(b) - days_before_year(a) >= 365 * (b - a),
{
}

/// A day lies in one year only.
pub proof fn lemma_year_unique(days: int, a: int, b: int)
    requires
        in_year(days, a),
        in_year(days, b),
    ensures
        a == b,
{
    if a < b {
        lemma_years_ordered(a, b);
    } else if b < a {
        lemma_years_ordered(b, a);
    }
}

/// A year is as long as its February makes it.
#[verifier::spinoff_prover]
proof fn lemma_year_length(year: int)
    ensures
        days_before_year(year + 1) == days_before_year(year) + 337 + days_in_month(year, 2),
{
}

/// The months of a year follow each other.
#[verifier::spinoff_prover]
proof fn lemma_months(year: int)
    ensures
        days_before_month(year, 1) == 0,
        days_before_month(year, 2) == 31,
        days_before_month(year, 3) == 31 + days_in_month(year, 2),
        days_before_month(year, 4) == 62 + days_in_month(year, 2),
        days_before_month(year, 5) == 92 + days_in_month(year, 2),
        days_before_month(year, 6) == 123 + days_in_month(year, 2),
        days_before_month(year, 7) == 153 + days_in_month(year, 2),
        days_before_month(year, 8) == 184 + days_in_month(year, 2),
        days_before_month(year, 9) == 215 + days_in_month(year, 2),
        days_before_month(year, 10) == 245 + days_in_month(year, 2),
        days_before_month(year, 11) == 276 + days_in_month(year, 2),
        days_before_month(year, 12) == 306 + days_in_month(year, 2),
{
    assert(days_before_month(year, 1) == 0);
    assert(days_before_month(year, 2) == days_before_month(year, 1) + 31);
    assert(days_before_month(year, 3) == days_before_month(year, 2) + days_in_month(year, 2));
    assert(days_before_month(year, 4) == days_before_month(year, 3) + 31);
    assert(days_before_month(year, 5) == days_before_month(year, 4) + 30);
    assert(days_before_month(year, 6) == days_before_month(year, 5) + 31);
    assert(days_before_month(year, 7) == days_before_month(year, 6) + 30);
    assert(days_before_month(year, 8) == days_before_month(year, 7) + 31);
    assert(days_before_month(year, 9) == days_before_month(year, 8) + 31);
    assert(days_before_month(year, 10) == days_before_month(year, 9) + 30);
    assert(days_before_month(year, 11) == days_before_month(year, 10) + 31);
    assert(days_before_month(year, 12) == days_before_month(year, 11) + 30);
}

/// The number of a calendar day lies in its year and in the supported range.
pub proof fn lemma_valid_in_range(year: int, month: int, day: int)
    requires
        valid_ymd(year, month, day),
    ensures
        in_year(day_number(year, month, day), year),
        in_range(day_number(year, month, day)),
{
    lemma_months(year);
    lemma_year_length(year);
    if FIRST_YEAR < year {
        lemma_years_ordered(FIRST_YEAR as int, year);
    }
    if year < LAST_YEAR {
        lemma_years_ordered(year, LAST_YEAR + 1);
    }
}

/// Two calendar days with one number are the same day.
pub proof fn lemma_ymd_unique(y1: int, m1: int, d1: int, y2: int, m2: int, d2: int)
    requires
        valid_ymd(y1, m1, d1),
        valid_ymd(y2, m2, d2),
        day_number(y1, m1, d1) == day_number(y2, m2, d2),
    ensures
        y1 == y2,
        m1 == m2,
        d1 == d2,
{
    lemma_valid_in_range(y1, m1, d1);
    lemma_valid_in_range(y2, m2, d2);
    lemma_year_unique(day_number(y1, m1, d1), y1, y2);
    lemma_months(y1);
}

} // verus!
