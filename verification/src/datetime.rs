//! Calendar dates and times of day, for the date and time pickers.
use crate::text::{
    chars_of, find_char, first_index, is_digit, is_white_space, lemma_first_index_after,
    lemma_no_index_in_digits, lemma_padded_value, padded_decimal, parse_integer,
    parse_integer_chars, push_char, push_padded, trim_bounds, trimmed, zero_padded, decimal,
    all_digits, digits_value, integer_value,
};
use vstd::prelude::*;

verus! {

// ---------------------------------------------------------------------------
// The calendar, as mathematics
// ---------------------------------------------------------------------------

/// Whether `year` is a leap year of the proleptic Gregorian calendar.
pub open spec fn is_leap(year: int) -> bool {
    (year % 4 == 0 && year % 100 != 0) || year % 400 == 0
}

/// Number of days in `month` of `year`; any month number other than 2, 4,
/// 6, 9 and 11 counts as a 31-day month.
pub open spec fn month_length(year: int, month: int) -> int {
    if month == 2 {
        if is_leap(year) { 29 } else { 28 }
    } else if month == 4 || month == 6 || month == 9 || month == 11 {
        30
    } else {
        31
    }
}

/// Number of days in `year`.
pub open spec fn year_length(year: int) -> int {
    if is_leap(year) { 366 } else { 365 }
}

/// Number of leap years among the years `1..=year` (for `year >= 0`; the
/// same floor-division formula extends it to earlier years).
pub open spec fn leap_years_through(year: int) -> int {
    year / 4 - year / 100 + year / 400
}

/// Days from 0001-01-01 to the first of January of `year`.
pub open spec fn days_before_year(year: int) -> int {
    365 * (year - 1) + leap_years_through(year - 1)
}

/// Days from the first of January of `year` to the first of `month`.
pub open spec fn days_before_month(year: int, month: int) -> int {
    let common: int = if month <= 1 {
        0
    } else if month == 2 {
        31
    } else if month == 3 {
        59
    } else if month == 4 {
        90
    } else if month == 5 {
        120
    } else if month == 6 {
        151
    } else if month == 7 {
        181
    } else if month == 8 {
        212
    } else if month == 9 {
        243
    } else if month == 10 {
        273
    } else if month == 11 {
        304
    } else {
        334
    };
    if month > 2 && is_leap(year) { common + 1 } else { common }
}

/// The fields of a calendar date, as mathematical integers.
pub struct Ymd {
    pub year: int,
    pub month: int,
    pub day: int,
}

/// Whether `d` names a day that exists, in a year that fits an `i32`.
pub open spec fn is_valid_ymd(d: Ymd) -> bool {
    &&& i32::MIN <= d.year <= i32::MAX
    &&& 1 <= d.month <= 12
    &&& 1 <= d.day <= month_length(d.year, d.month)
}

/// Days from 1970-01-01 to `d` (negative before it).
pub open spec fn epoch_day(d: Ymd) -> int {
    days_before_year(d.year) + days_before_month(d.year, d.month) + d.day - 1 - 719162
}

/// The day count of the earliest representable date, `i32::MIN`-01-01.
pub open spec fn first_day() -> int {
    epoch_day(Ymd { year: i32::MIN as int, month: 1, day: 1 })
}

/// The day count of the latest representable date, `i32::MAX`-12-31.
pub open spec fn last_day() -> int {
    epoch_day(Ymd { year: i32::MAX as int, month: 12, day: 31 })
}

/// Whether `a` comes strictly before `b`, comparing year, then month, then day.
pub open spec fn ymd_before(a: Ymd, b: Ymd) -> bool {
    ||| a.year < b.year
    ||| a.year == b.year && a.month < b.month
    ||| a.year == b.year && a.month == b.month && a.day < b.day
}

/// Day of the week of `d`, 0 for Sunday to 6 for Saturday.
pub open spec fn weekday_of(d: Ymd) -> int {
    (epoch_day(d) + 4) % 7
}

/// Howard Hinnant's `days_from_civil`: days since 1970-01-01, counted in
/// 400-year eras of years that start on the first of March.
pub open spec fn civil_to_days(year: int, month: int, day: int) -> int {
    let shifted_year = if month <= 2 { year - 1 } else { year };
    let era = shifted_year / 400;
    let year_of_era = shifted_year - era * 400;
    let shifted_month = if month > 2 { month - 3 } else { month + 9 };
    let day_of_year = (153 * shifted_month + 2) / 5 + day - 1;
    let day_of_era = year_of_era * 365 + year_of_era / 4 - year_of_era / 100 + day_of_year;
    era * 146097 + day_of_era - 719468
}

// ---------------------------------------------------------------------------
// Lemmas
// ---------------------------------------------------------------------------

/// One more year adds one more leap year exactly when that year is a leap year.
proof fn lemma_leap_step(year: int)
    ensures
        leap_years_through(year) - leap_years_through(year - 1) == if is_leap(year) {
            1int
        } else {
            0int
        },
{
}

/// The length of a year is the step between consecutive year starts.
pub proof fn lemma_year_step(year: int)
    ensures
        days_before_year(year + 1) - days_before_year(year) == year_length(year),
{
    lemma_leap_step(year);
}

/// Year starts never decrease; later years start strictly later.
pub proof fn lemma_year_starts_increase(a: int, b: int)
    requires
        a <= b,
    ensures
        days_before_year(a) + 365 * (b - a) <= days_before_year(b),
    decreases b - a,
{
    if a < b {
        lemma_year_starts_increase(a, b - 1);
        lemma_year_step(b - 1);
    }
}

/// A valid date lies within its year.
proof fn lemma_within_year(d: Ymd)
    requires
        1 <= d.month <= 12,
        1 <= d.day <= month_length(d.year, d.month),
    ensures
        days_before_year(d.year) - 719162 <= epoch_day(d),
        epoch_day(d) < days_before_year(d.year + 1) - 719162,
{
    lemma_year_step(d.year);
}

/// Hinnant's formula agrees with the day count.
pub proof fn lemma_civil_to_days(year: int, month: int, day: int)
    requires
        1 <= month <= 12,
    ensures
        civil_to_days(year, month, day) == epoch_day(Ymd { year, month, day }),
{
    let shifted_year = if month <= 2 { year - 1 } else { year };
    let era = shifted_year / 400;
    let year_of_era = shifted_year - era * 400;
    assert(0 <= year_of_era < 400);
    assert(leap_years_through(shifted_year) == 97 * era + year_of_era / 4 - year_of_era / 100);
    lemma_leap_step(year);
}

/// A valid date's day count lies within the representable range.
pub proof fn lemma_epoch_day_in_range(d: Ymd)
    requires
        is_valid_ymd(d),
    ensures
        first_day() <= epoch_day(d) <= last_day(),
{
    lemma_within_year(d);
    lemma_year_starts_increase(i32::MIN as int, d.year);
    lemma_year_starts_increase(d.year + 1, i32::MAX as int + 1);
    lemma_within_year(Ymd { year: i32::MAX as int, month: 12, day: 31 });
    lemma_year_step(i32::MAX as int);
}

/// The calendar order of valid dates is the order of their day counts.
pub proof fn lemma_before_iff_earlier(a: Ymd, b: Ymd)
    requires
        is_valid_ymd(a),
        is_valid_ymd(b),
    ensures
        ymd_before(a, b) <==> epoch_day(a) < epoch_day(b),
        a == b <==> epoch_day(a) == epoch_day(b),
{
    lemma_within_year(a);
    lemma_within_year(b);
    if a.year < b.year {
        lemma_year_starts_increase(a.year + 1, b.year);
    } else if b.year < a.year {
        lemma_year_starts_increase(b.year + 1, a.year);
    }
}

/// Two valid dates with the same day count are the same date.
pub proof fn lemma_epoch_day_injective(a: Ymd, b: Ymd)
    requires
        is_valid_ymd(a),
        is_valid_ymd(b),
        epoch_day(a) == epoch_day(b),
    ensures
        a == b,
{
    lemma_before_iff_earlier(a, b);
}

/// Within a 400-year era, Hinnant's year estimate lands on the right year.
proof fn lemma_year_of_era(day_of_era: u32)
    requires
        day_of_era < 146097,
    ensures
        ({
            let yoe = (day_of_era - day_of_era / 1460 + day_of_era / 36524 - day_of_era / 146096)
                / 365;
            let start = 365 * yoe + yoe / 4 - yoe / 100;
            &&& yoe <= 399
            &&& start <= day_of_era
            &&& day_of_era - start <= 365
            &&& (day_of_era - start == 365 ==> ((yoe + 1) % 4 == 0 && ((yoe + 1) % 100 != 0
                || yoe == 399)))
        }),
{
    assert({
        let yoe = (day_of_era - day_of_era / 1460 + day_of_era / 36524 - day_of_era / 146096)
            / 365;
        let start = 365 * yoe + yoe / 4 - yoe / 100;
        &&& yoe <= 399
        &&& start <= day_of_era
        &&& day_of_era - start <= 365
        &&& (day_of_era - start == 365 ==> ((yoe + 1) % 4 == 0 && ((yoe + 1) % 100 != 0 || yoe
            == 399)))
    }) by (bit_vector)
        requires
            day_of_era < 146097,
    ;
}

/// Within a March-based year, Hinnant's month estimate lands on the right
/// month and leaves a day within it.
proof fn lemma_month_of_year(day_of_year: u32)
    requires
        day_of_year <= 365,
    ensures
        ({
            let mp = (5 * day_of_year + 2) / 153;
            let first = (153 * mp + 2) / 5;
            &&& mp <= 11
            &&& first <= day_of_year
            &&& day_of_year - first < 31
            &&& (mp == 1 || mp == 3 || mp == 6 || mp == 8) ==> day_of_year - first < 30
            &&& mp == 11 ==> (day_of_year - first < 28 || day_of_year == 365)
        }),
{
    assert({
        let mp = (5 * day_of_year + 2) / 153;
        let first = (153 * mp + 2) / 5;
        &&& mp <= 11
        &&& first <= day_of_year
        &&& day_of_year - first < 31
        &&& (mp == 1 || mp == 3 || mp == 6 || mp == 8) ==> day_of_year - first < 30
        &&& mp == 11 ==> (day_of_year - first < 28 || day_of_year == 365)
    }) by (bit_vector)
        requires
            day_of_year <= 365,
    ;
}

/// Howard Hinnant's `civil_from_days`: the date `days` after 1970-01-01.
pub open spec fn days_to_civil(days: int) -> Ymd {
    let shifted = days + 719468;
    let era = shifted / 146097;
    let day_of_era = shifted - era * 146097;
    let year_of_era = (day_of_era - day_of_era / 1460 + day_of_era / 36524 - day_of_era / 146096)
        / 365;
    let day_of_year = day_of_era - (365 * year_of_era + year_of_era / 4 - year_of_era / 100);
    let month_index = (5 * day_of_year + 2) / 153;
    let day = day_of_year - (153 * month_index + 2) / 5 + 1;
    let month = if month_index < 10 { month_index + 3 } else { month_index - 9 };
    let year = year_of_era + era * 400 + if month <= 2 { 1int } else { 0int };
    Ymd { year, month, day }
}

/// The era arithmetic of [`days_to_civil`]: the fields stay in range and
/// Hinnant's forward formula gives back the day count.
#[verifier::spinoff_prover]
#[verifier::rlimit(40)]
proof fn lemma_days_to_civil_fields(days: int)
    ensures
        1 <= days_to_civil(days).month <= 12,
        1 <= days_to_civil(days).day <= month_length(
            days_to_civil(days).year,
            days_to_civil(days).month,
        ),
        civil_to_days(
            days_to_civil(days).year,
            days_to_civil(days).month,
            days_to_civil(days).day,
        ) == days,
{
    let shifted = days + 719468;
    let era = shifted / 146097;
    let day_of_era = shifted - era * 146097;
    assert(0 <= day_of_era < 146097);
    lemma_year_of_era(day_of_era as u32);
    let year_of_era = (day_of_era - day_of_era / 1460 + day_of_era / 36524 - day_of_era / 146096)
        / 365;
    let day_of_year = day_of_era - (365 * year_of_era + year_of_era / 4 - year_of_era / 100);
    assert(0 <= day_of_year <= 365);
    lemma_month_of_year(day_of_year as u32);
    let d = days_to_civil(days);
    assert(d.year - (if d.month <= 2 { 1int } else { 0int }) == era * 400 + year_of_era);
    assert((era * 400 + year_of_era) / 400 == era);
    if d.month == 2 && d.day == 29 {
        assert(is_leap(d.year));
    }
}

/// [`days_to_civil`] gives the valid date with the given day count.
pub proof fn lemma_days_to_civil(days: int)
    requires
        first_day() <= days <= last_day(),
    ensures
        is_valid_ymd(days_to_civil(days)),
        epoch_day(days_to_civil(days)) == days,
{
    let d = days_to_civil(days);
    lemma_days_to_civil_fields(days);
    lemma_civil_to_days(d.year, d.month, d.day);
    lemma_within_year(d);
    if d.year > i32::MAX {
        lemma_year_starts_increase(i32::MAX as int + 1, d.year);
        lemma_within_year(Ymd { year: i32::MAX as int, month: 12, day: 31 });
        lemma_year_step(i32::MAX as int);
    }
    if d.year < i32::MIN {
        lemma_year_starts_increase(d.year + 1, i32::MIN as int);
    }
}

// ---------------------------------------------------------------------------
// Small executable helpers
// ---------------------------------------------------------------------------

/// Whether `divisor` divides `value` exactly.
fn divides(value: i32, divisor: i32) -> (r: bool)
    requires
        divisor > 0,
    ensures
        r == (value % divisor == 0),
{
    match value.checked_rem_euclid(divisor) {
        Some(rem) => rem == 0,
        None => false,
    }
}

/// Floor division of `value` by a positive `divisor`.
fn floor_div(value: i64, divisor: i64) -> (q: i64)
    requires
        divisor > 0,
    ensures
        q == value / divisor,
{
    match value.checked_div_euclid(divisor) {
        Some(q) => q,
        None => {
            // Division by a positive number cannot leave the range of `i64`.
            assert(false) by {
                assert(i64::MIN <= value / divisor <= i64::MAX) by (nonlinear_arith)
                    requires
                        divisor > 0,
                        i64::MIN <= value <= i64::MAX,
                ;
            }
            0
        },
    }
}

/// Whether `year` is a leap year.
pub fn is_leap_year(year: i32) -> (leap: bool)
    ensures
        leap == is_leap(year as int),
{
    (divides(year, 4) && !divides(year, 100)) || divides(year, 400)
}

/// Number of days in `month` (1 to 12) of `year`.
pub fn days_in_month(year: i32, month: u8) -> (days: u8)
    ensures
        days == month_length(year as int, month as int),
{
    match month {
        2 => if is_leap_year(year) {
            29
        } else {
            28
        },
        4 | 6 | 9 | 11 => 30,
        _ => 31,
    }
}

// ---------------------------------------------------------------------------
// CalendarDate
// ---------------------------------------------------------------------------

/// A day in the proleptic Gregorian calendar, with no time or time zone.
///
/// Parses from and displays as ISO 8601 (`2026-09-19`), the format of an
/// HTML date input, so it round-trips through forms and JSON: see
/// [`lemma_date_text_round_trip`].
#[derive(Clone, Copy, Debug, PartialEq, Eq, Structural, PartialOrd, Ord, Hash)]
pub struct CalendarDate {
    year: i32,
    month: u8,
    day: u8,
}

impl View for CalendarDate {
    type V = Ymd;

    closed spec fn view(&self) -> Ymd {
        Ymd { year: self.year as int, month: self.month as int, day: self.day as int }
    }
}

impl CalendarDate {
    /// Every date names a day that exists.
    #[verifier::type_invariant]
    closed spec fn exists_in_calendar(self) -> bool {
        is_valid_ymd(self@)
    }

    /// Two dates with the same year, month and day are the same date.
    pub proof fn lemma_view(self, other: Self)
        ensures
            self@ == other@ ==> self == other,
    {
    }

    /// The date, or `None` if the month or day is out of range.
    pub fn new(year: i32, month: u8, day: u8) -> (date: Option<Self>)
        ensures
            date is Some <==> (1 <= month <= 12 && 1 <= day <= month_length(
                year as int,
                month as int,
            )),
            date matches Some(d) ==> d@ == (Ymd {
                year: year as int,
                month: month as int,
                day: day as int,
            }),
    {
        if 1 <= month && month <= 12 && day >= 1 && day <= days_in_month(year, month) {
            Some(CalendarDate { year, month, day })
        } else {
            None
        }
    }

    /// The year.
    pub fn year(self) -> (year: i32)
        ensures
            year == self@.year,
    {
        self.year
    }

    /// The month, 1 to 12.
    pub fn month(self) -> (month: u8)
        ensures
            month == self@.month,
            1 <= month <= 12,
    {
        proof {
            use_type_invariant(&self);
        }
        self.month
    }

    /// The day of the month, from 1.
    pub fn day(self) -> (day: u8)
        ensures
            day == self@.day,
            1 <= day <= month_length(self@.year, self@.month),
    {
        proof {
            use_type_invariant(&self);
        }
        self.day
    }

    /// Days since 1970-01-01, after Howard Hinnant's `days_from_civil`.
    pub fn days_since_epoch(self) -> (days: i64)
        ensures
            days == epoch_day(self@),
    {
        proof {
            use_type_invariant(&self);
            lemma_epoch_day_in_range(self@);
            lemma_civil_to_days(self@.year, self@.month, self@.day);
        }
        let month = self.month as i64;
        let year: i64 = self.year as i64 - if self.month <= 2 {
            1
        } else {
            0
        };
        let era: i64 = floor_div(year, 400);
        let year_of_era: i64 = year - era * 400;
        let shifted_month: i64 = if month > 2 {
            month - 3
        } else {
            month + 9
        };
        let day_of_year: i64 = (153 * shifted_month + 2) / 5 + self.day as i64 - 1;
        let day_of_era: i64 = year_of_era * 365 + year_of_era / 4 - year_of_era / 100
            + day_of_year;
        era * 146_097 + day_of_era - 719_468
    }

    /// The inverse of [`days_since_epoch`](Self::days_since_epoch).
    pub fn from_days_since_epoch(days: i64) -> (date: Self)
        requires
            first_day() <= days <= last_day(),
        ensures
            date@ == days_to_civil(days as int),
            epoch_day(date@) == days,
    {
        proof {
            lemma_days_to_civil(days as int);
            assert(first_day() == -784_353_015_833);
            assert(last_day() == 784_351_576_776);
        }
        let shifted: i64 = days + 719_468;
        let era: i64 = floor_div(shifted, 146_097);
        let day_of_era: i64 = shifted - era * 146_097;
        let year_of_era: i64 = (day_of_era - day_of_era / 1460 + day_of_era / 36_524 - day_of_era
            / 146_096) / 365;
        let day_of_year: i64 = day_of_era - (365 * year_of_era + year_of_era / 4 - year_of_era
            / 100);
        let month_index: i64 = (5 * day_of_year + 2) / 153;
        let day_of_month: i64 = day_of_year - (153 * month_index + 2) / 5 + 1;
        let month: i64 = if month_index < 10 {
            month_index + 3
        } else {
            month_index - 9
        };
        let full_year: i64 = year_of_era + era * 400 + if month <= 2 {
            1
        } else {
            0
        };
        CalendarDate { year: full_year as i32, month: month as u8, day: day_of_month as u8 }
    }
}

/// `a` after clamping to `lo..=hi`, where each bound is optional: first
/// raised to `lo`, then lowered to `hi`.
pub open spec fn clamp_ymd(a: Ymd, lo: Option<Ymd>, hi: Option<Ymd>) -> Ymd {
    let raised = match lo {
        Some(lo) => if ymd_before(a, lo) { lo } else { a },
        None => a,
    };
    match hi {
        Some(hi) => if ymd_before(hi, raised) { hi } else { raised },
        None => raised,
    }
}

/// Index of the month of `d` counted from January of year 0.
pub open spec fn month_index(d: Ymd) -> int {
    d.year * 12 + d.month - 1
}

/// The date `months` after `d`, with the day moved back to the end of the
/// month when that month is shorter.
pub open spec fn add_months_ymd(d: Ymd, months: int) -> Ymd {
    let index = month_index(d) + months;
    let year = index / 12;
    let month = index % 12 + 1;
    let length = month_length(year, month);
    Ymd { year, month, day: if d.day < length { d.day } else { length } }
}

/// Whether `months` can be added to `d` without the month index leaving `i32`.
pub open spec fn months_addable(d: Ymd, months: int) -> bool {
    &&& i32::MIN <= d.year * 12
    &&& d.year * 12 + d.month <= i32::MAX
    &&& i32::MIN <= month_index(d) + months <= i32::MAX
}

impl CalendarDate {
    /// Whether `self` comes strictly before `other`, as `<` orders dates.
    pub fn is_before(self, other: Self) -> (before: bool)
        ensures
            before == ymd_before(self@, other@),
    {
        self.year < other.year || (self.year == other.year && (self.month < other.month || (
        self.month == other.month && self.day < other.day)))
    }

    /// Day of the week, 0 for Sunday to 6 for Saturday.
    pub fn weekday(self) -> (weekday: u8)
        ensures
            weekday == weekday_of(self@),
            weekday < 7,
    {
        // 1970-01-01 was a Thursday.
        let days = self.days_since_epoch();
        proof {
            use_type_invariant(&self);
            lemma_epoch_day_in_range(self@);
            assert(first_day() == -784_353_015_833);
        }
        match (days + 4).checked_rem_euclid(7) {
            Some(weekday) => weekday as u8,
            None => 0,
        }
    }

    /// The date `days` later (or earlier, when negative).
    pub fn add_days(self, days: i64) -> (date: Self)
        requires
            first_day() <= epoch_day(self@) + days <= last_day(),
        ensures
            epoch_day(date@) == epoch_day(self@) + days,
            date@ == days_to_civil(epoch_day(self@) + days),
            is_valid_ymd(self@),
            is_valid_ymd(date@),
    {
        proof {
            use_type_invariant(&self);
            lemma_days_to_civil(epoch_day(self@) + days);
        }
        Self::from_days_since_epoch(self.days_since_epoch() + days)
    }

    /// The same day `months` later (or earlier), moved back to the last day
    /// of the month when that month is shorter.
    pub fn add_months(self, months: i32) -> (date: Self)
        requires
            months_addable(self@, months as int),
        ensures
            date@ == add_months_ymd(self@, months as int),
            is_valid_ymd(self@),
            is_valid_ymd(date@),
    {
        proof {
            use_type_invariant(&self);
        }
        let index: i32 = self.year * 12 + self.month as i32 - 1 + months;
        let year: i32 = match index.checked_div_euclid(12) {
            Some(year) => year,
            None => 0,
        };
        let month: u8 = match index.checked_rem_euclid(12) {
            Some(rem) => (rem + 1) as u8,
            None => 1,
        };
        let length = days_in_month(year, month);
        let day = if self.day < length {
            self.day
        } else {
            length
        };
        CalendarDate { year, month, day }
    }

    /// The first day of this date's month.
    pub fn first_of_month(self) -> (date: Self)
        ensures
            date@ == (Ymd { day: 1, ..self@ }),
    {
        proof {
            use_type_invariant(&self);
        }
        CalendarDate { day: 1, ..self }
    }

    /// Clamp to the range `min..=max`, where each bound is optional.
    pub fn clamp_to(self, min: Option<Self>, max: Option<Self>) -> (date: Self)
        ensures
            date@ == clamp_ymd(
                self@,
                match min {
                    Some(lo) => Some(lo@),
                    None => None,
                },
                match max {
                    Some(hi) => Some(hi@),
                    None => None,
                },
            ),
    {
        let mut date = self;
        if let Some(min) = min {
            if date.is_before(min) {
                date = min;
            }
        }
        if let Some(max) = max {
            if max.is_before(date) {
                date = max;
            }
        }
        date
    }

    /// The date of the day that contains the instant `seconds` after
    /// 1970-01-01T00:00:00 UTC.
    pub fn from_unix_seconds(seconds: i64) -> (date: Self)
        requires
            first_day() <= seconds as int / 86400 <= last_day(),
        ensures
            epoch_day(date@) == seconds as int / 86400,
    {
        let days = floor_div(seconds, 86_400);
        Self::from_days_since_epoch(days)
    }
}

// ---------------------------------------------------------------------------
// Text forms
// ---------------------------------------------------------------------------

/// Why a date or time string did not parse.
#[derive(Clone, Copy, Debug, PartialEq, Eq, Structural)]
pub struct ParseDateTimeError;

impl ParseDateTimeError {
    /// The message that explains the error.
    pub fn to_string(&self) -> (message: String)
        ensures
            message@ == "expected an ISO 8601 date (YYYY-MM-DD) or time (HH:MM)"@,
    {
        "expected an ISO 8601 date (YYYY-MM-DD) or time (HH:MM)".to_owned()
    }
}

/// A date in ISO 8601 form, `{year:04}-{month:02}-{day:02}`.
pub open spec fn format_date(d: Ymd) -> Seq<char> {
    padded_decimal(d.year, 4) + seq!['-'] + padded_decimal(d.month, 2) + seq!['-']
        + padded_decimal(d.day, 2)
}

/// The date that `text` spells: after trimming white space, a year, a
/// month and a day, each in Rust's integer syntax, forming a valid date.
/// The year ends at the first `-` after its first character, so that a
/// leading `-` is the year's sign, as in `-0001-01-01`; the month ends at
/// the next `-`.
pub open spec fn parse_date_text(text: Seq<char>) -> Option<Ymd> {
    let t = trimmed(text);
    if t.len() == 0 {
        None
    } else {
        match first_index(t.drop_first(), '-') {
            None => None,
            Some(k) => {
                let i = k + 1;
                let rest = t.subrange(i + 1, t.len() as int);
                match first_index(rest, '-') {
                    None => None,
                    Some(j) => {
                        let year = parse_integer(t.subrange(0, i), true, i32::MIN as int, i32::MAX as int);
                        let month = parse_integer(rest.subrange(0, j), false, 0, 255);
                        let day = parse_integer(rest.subrange(j + 1, rest.len() as int), false, 0, 255);
                        match (year, month, day) {
                            (Some(y), Some(m), Some(d)) => if 1 <= m <= 12 && 1 <= d <= month_length(y, m) {
                                Some(Ymd { year: y, month: m, day: d })
                            } else {
                                None
                            },
                            _ => None,
                        }
                    },
                }
            },
        }
    }
}

impl CalendarDate {
    /// The date in ISO 8601 form, such as `2026-09-19`.
    pub fn to_string(&self) -> (text: String)
        ensures
            text@ == format_date(self@),
    {
        let mut text = String::new();
        push_padded(&mut text, self.year as i64, 4);
        push_char(&mut text, '-');
        push_padded(&mut text, self.month as i64, 2);
        push_char(&mut text, '-');
        push_padded(&mut text, self.day as i64, 2);
        text
    }

    /// Parses an ISO 8601 date such as `2026-09-19`, with white space around
    /// it allowed.
    pub fn parse(text: &str) -> (date: Result<Self, ParseDateTimeError>)
        ensures
            match parse_date_text(text@) {
                Some(d) => date matches Ok(x) && x@ == d,
                None => date is Err,
            },
    {
        let chars = chars_of(text);
        let (start, end) = trim_bounds(&chars);
        let ghost t = chars@.subrange(start as int, end as int);
        if start == end {
            return Err(ParseDateTimeError);
        }
        proof {
            assert(t.drop_first() =~= chars@.subrange(start + 1, end as int));
        }
        // The year ends at the first `-` after its first character, which
        // may be its sign.
        let first = match find_char(&chars, start + 1, end, '-') {
            Some(i) => i,
            None => return Err(ParseDateTimeError),
        };
        let ghost rest = t.subrange(first - start + 1, t.len() as int);
        proof {
            assert(trimmed(text@) == t);
            assert(first_index(t.drop_first(), '-') == Some(first - start - 1));
            assert(rest =~= chars@.subrange(first + 1, end as int));
        }
        let second = match find_char(&chars, first + 1, end, '-') {
            Some(j) => j,
            None => {
                assert(first_index(rest, '-') is None);
                assert(parse_date_text(text@) is None);
                return Err(ParseDateTimeError);
            },
        };
        proof {
            assert(first_index(rest, '-') == Some(second - first - 1));
        }
        proof {
            assert(t.subrange(0, first - start) =~= chars@.subrange(start as int, first as int));
            assert(rest.subrange(0, second - first - 1) =~= chars@.subrange(
                first + 1,
                second as int,
            ));
            assert(rest.subrange(second - first, rest.len() as int) =~= chars@.subrange(
                second + 1,
                end as int,
            ));
        }
        let year = parse_integer_chars(&chars, start, first, true, i32::MIN as i64, i32::MAX as i64);
        let month = parse_integer_chars(&chars, first + 1, second, false, 0, 255);
        let day = parse_integer_chars(&chars, second + 1, end, false, 0, 255);
        proof {
            let y = parse_integer(t.subrange(0, first - start), true, i32::MIN as int, i32::MAX as int);
            let m = parse_integer(rest.subrange(0, second - first - 1), false, 0, 255);
            let d = parse_integer(rest.subrange(second - first, rest.len() as int), false, 0, 255);
            assert(parse_date_text(text@) == match (y, m, d) {
                (Some(y), Some(m), Some(d)) => if 1 <= m <= 12 && 1 <= d <= month_length(y, m) {
                    Some(Ymd { year: y, month: m, day: d })
                } else {
                    None
                },
                _ => None,
            });
        }
        match (year, month, day) {
            (Some(year), Some(month), Some(day)) => match Self::new(year as i32, month as u8, day as u8) {
                Some(date) => Ok(date),
                None => Err(ParseDateTimeError),
            },
            _ => Err(ParseDateTimeError),
        }
    }
}

impl std::str::FromStr for CalendarDate {
    type Err = ParseDateTimeError;

    fn from_str(text: &str) -> (date: Result<Self, Self::Err>)
        ensures
            match parse_date_text(text@) {
                Some(d) => date matches Ok(x) && x@ == d,
                None => date is Err,
            },
    {
        Self::parse(text)
    }
}

/// Digits are not white space.
proof fn lemma_digits_not_space(c: char)
    requires
        is_digit(c),
    ensures
        !is_white_space(c),
        c != '-',
        c != ':',
        c != '+',
{
}

/// A zero-padded natural number reads back through Rust's integer syntax.
proof fn lemma_padded_parses(n: nat, width: int, signed: bool, lo: int, hi: int)
    requires
        lo <= n <= hi,
    ensures
        parse_integer(zero_padded(decimal(n), width), signed, lo, hi) == Some(n as int),
        first_index(zero_padded(decimal(n), width), '-') is None,
        first_index(zero_padded(decimal(n), width), ':') is None,
        !is_white_space(zero_padded(decimal(n), width)[0]),
        !is_white_space(zero_padded(decimal(n), width).last()),
{
    let s = zero_padded(decimal(n), width);
    lemma_padded_value(n, width);
    lemma_digits_not_space(s[0]);
    lemma_digits_not_space(s.last());
    lemma_no_index_in_digits(s, '-');
    lemma_no_index_in_digits(s, ':');
}

/// The year as a date writes it reads back as the year; no `-` follows
/// its first character, and that character is not white space.
proof fn lemma_year_text(year: int)
    requires
        i32::MIN <= year <= i32::MAX,
    ensures
        padded_decimal(year, 4).len() >= 1,
        !is_white_space(padded_decimal(year, 4)[0]),
        first_index(padded_decimal(year, 4).drop_first(), '-') is None,
        parse_integer(padded_decimal(year, 4), true, i32::MIN as int, i32::MAX as int) == Some(year),
{
    let y = padded_decimal(year, 4);
    if year < 0 {
        let digits = zero_padded(decimal((-year) as nat), 3);
        lemma_padded_value((-year) as nat, 3);
        lemma_no_index_in_digits(digits, '-');
        assert(y =~= seq!['-'] + digits);
        assert(y.drop_first() =~= digits);
        assert(integer_value(y, true) == Some(-digits_value(digits)));
    } else {
        lemma_padded_parses(year as nat, 4, true, i32::MIN as int, i32::MAX as int);
        lemma_padded_value(year as nat, 4);
        lemma_digits_not_space(y[0]);
        assert forall|k: int| 0 <= k < y.drop_first().len() implies is_digit(
            #[trigger] y.drop_first()[k],
        ) by {
            assert(y.drop_first()[k] == y[k + 1]);
        }
        lemma_no_index_in_digits(y.drop_first(), '-');
    }
}

/// Writing a date and parsing the text gives the date back, for every
/// date, before year 0 too.
pub proof fn lemma_date_text_round_trip(d: Ymd)
    requires
        is_valid_ymd(d),
    ensures
        parse_date_text(format_date(d)) == Some(d),
{
    let y = padded_decimal(d.year, 4);
    let m = padded_decimal(d.month, 2);
    let dd = padded_decimal(d.day, 2);
    lemma_year_text(d.year);
    lemma_padded_parses(d.month as nat, 2, false, 0, 255);
    lemma_padded_parses(d.day as nat, 2, false, 0, 255);
    let f = format_date(d);
    let rest = m + seq!['-'] + dd;
    assert(f =~= y + seq!['-'] + rest);
    assert(f[0] == y[0]);
    assert(f.last() == dd.last());
    crate::text::lemma_trimmed_unchanged(f);
    assert(f.drop_first() =~= y.drop_first() + seq!['-'] + rest);
    lemma_first_index_after(y.drop_first(), '-', rest);
    lemma_first_index_after(m, '-', dd);
    assert(f.subrange(0, y.len() as int) =~= y);
    assert(f.subrange(y.len() as int + 1, f.len() as int) =~= rest);
    assert(rest.subrange(0, m.len() as int) =~= m);
    assert(rest.subrange(m.len() as int + 1, rest.len() as int) =~= dd);
}

// ---------------------------------------------------------------------------
// TimeOfDay
// ---------------------------------------------------------------------------

/// The fields of a time of day, as mathematical integers.
pub struct Clock {
    pub hour: int,
    pub minute: int,
}

/// A time of day to the minute, with no date or time zone.
///
/// Parses from and displays as 24-hour ISO 8601 (`14:05`), the format of an
/// HTML time input.
#[derive(Clone, Copy, Debug, PartialEq, Eq, Structural, PartialOrd, Ord, Hash)]
pub struct TimeOfDay {
    hour: u8,
    minute: u8,
}

impl View for TimeOfDay {
    type V = Clock;

    closed spec fn view(&self) -> Clock {
        Clock { hour: self.hour as int, minute: self.minute as int }
    }
}

/// The reading of `hour` (0 to 23) on a 12-hour clock: the hour from 1 to
/// 12, and whether it is after noon.
pub open spec fn twelve_hour(hour: int) -> (int, bool) {
    (if hour % 12 == 0 { 12 } else { hour % 12 }, hour >= 12)
}

/// The 24-hour hour of a 12-hour reading.
pub open spec fn from_twelve_hour(hour: int, pm: bool) -> int {
    hour % 12 + if pm { 12int } else { 0int }
}

/// A time in 24-hour ISO 8601 form, `{hour:02}:{minute:02}`.
pub open spec fn format_time(t: Clock) -> Seq<char> {
    padded_decimal(t.hour, 2) + seq![':'] + padded_decimal(t.minute, 2)
}

/// The time that `text` spells: after trimming white space, an hour and a
/// minute taken from the first two `:`-separated parts, each in Rust's
/// integer syntax for `u8`, forming a valid time. Further parts are ignored.
pub open spec fn parse_time_text(text: Seq<char>) -> Option<Clock> {
    let t = trimmed(text);
    match first_index(t, ':') {
        None => None,
        Some(i) => {
            let rest = t.subrange(i + 1, t.len() as int);
            let second = match first_index(rest, ':') {
                Some(j) => rest.subrange(0, j),
                None => rest,
            };
            match (parse_integer(t.subrange(0, i), false, 0, 255), parse_integer(second, false, 0, 255)) {
                (Some(h), Some(m)) => if h < 24 && m < 60 {
                    Some(Clock { hour: h, minute: m })
                } else {
                    None
                },
                _ => None,
            }
        },
    }
}

impl TimeOfDay {
    /// Every time is on the clock.
    #[verifier::type_invariant]
    closed spec fn on_the_clock(self) -> bool {
        self.hour < 24 && self.minute < 60
    }

    /// The time, or `None` if the hour or minute is out of range.
    pub fn new(hour: u8, minute: u8) -> (time: Option<Self>)
        ensures
            time is Some <==> hour < 24 && minute < 60,
            time matches Some(t) ==> t@ == (Clock { hour: hour as int, minute: minute as int }),
    {
        if hour < 24 && minute < 60 {
            Some(TimeOfDay { hour, minute })
        } else {
            None
        }
    }

    /// The hour, 0 to 23.
    pub fn hour(self) -> (hour: u8)
        ensures
            hour == self@.hour,
            hour < 24,
    {
        proof {
            use_type_invariant(&self);
        }
        self.hour
    }

    /// The minute, 0 to 59.
    pub fn minute(self) -> (minute: u8)
        ensures
            minute == self@.minute,
            minute < 60,
    {
        proof {
            use_type_invariant(&self);
        }
        self.minute
    }

    /// The hour on a 12-hour clock (1 to 12), and whether it is after noon.
    pub fn hour12(self) -> (reading: (u8, bool))
        ensures
            reading.0 == twelve_hour(self@.hour).0,
            reading.1 == twelve_hour(self@.hour).1,
    {
        let hour = match self.hour % 12 {
            0 => 12,
            hour => hour,
        };
        (hour, self.hour >= 12)
    }

    /// The time for a 12-hour clock reading: `hour` is 1 to 12.
    pub fn from_hour12(hour: u8, minute: u8, pm: bool) -> (time: Option<Self>)
        ensures
            time is Some <==> 1 <= hour <= 12 && minute < 60,
            time matches Some(t) ==> t@ == (Clock {
                hour: from_twelve_hour(hour as int, pm),
                minute: minute as int,
            }),
    {
        if !(1 <= hour && hour <= 12) {
            return None;
        }
        Self::new(hour % 12 + if pm {
            12
        } else {
            0
        }, minute)
    }

    /// The time of day, in UTC, of the instant `seconds` after
    /// 1970-01-01T00:00:00 UTC.
    pub fn from_unix_seconds(seconds: u64) -> (time: Self)
        ensures
            time@ == (Clock {
                hour: (seconds as int / 60) / 60 % 24,
                minute: (seconds as int / 60) % 60,
            }),
    {
        let minutes = seconds / 60;
        TimeOfDay { hour: (minutes / 60 % 24) as u8, minute: (minutes % 60) as u8 }
    }

    /// The time in 24-hour ISO 8601 form, such as `09:07`.
    pub fn to_string(&self) -> (text: String)
        ensures
            text@ == format_time(self@),
    {
        let mut text = String::new();
        push_padded(&mut text, self.hour as i64, 2);
        push_char(&mut text, ':');
        push_padded(&mut text, self.minute as i64, 2);
        text
    }

    /// Parses a 24-hour time such as `14:05`, with white space around it
    /// allowed.
    pub fn parse(text: &str) -> (time: Result<Self, ParseDateTimeError>)
        ensures
            match parse_time_text(text@) {
                Some(c) => time matches Ok(x) && x@ == c,
                None => time is Err,
            },
    {
        let chars = chars_of(text);
        let (start, end) = trim_bounds(&chars);
        let ghost t = chars@.subrange(start as int, end as int);
        let first = match find_char(&chars, start, end, ':') {
            Some(i) => i,
            None => return Err(ParseDateTimeError),
        };
        let ghost rest = t.subrange(first - start + 1, t.len() as int);
        proof {
            assert(rest =~= chars@.subrange(first + 1, end as int));
            assert(t.subrange(0, first - start) =~= chars@.subrange(start as int, first as int));
        }
        let second_end = match find_char(&chars, first + 1, end, ':') {
            Some(j) => j,
            None => end,
        };
        proof {
            if second_end < end {
                assert(rest.subrange(0, second_end - first - 1) =~= chars@.subrange(
                    first + 1,
                    second_end as int,
                ));
            }
        }
        let hour = parse_integer_chars(&chars, start, first, false, 0, 255);
        let minute = parse_integer_chars(&chars, first + 1, second_end, false, 0, 255);
        match (hour, minute) {
            (Some(hour), Some(minute)) => match Self::new(hour as u8, minute as u8) {
                Some(time) => Ok(time),
                None => Err(ParseDateTimeError),
            },
            _ => Err(ParseDateTimeError),
        }
    }
}

impl std::str::FromStr for TimeOfDay {
    type Err = ParseDateTimeError;

    fn from_str(text: &str) -> (time: Result<Self, Self::Err>)
        ensures
            match parse_time_text(text@) {
                Some(c) => time matches Ok(x) && x@ == c,
                None => time is Err,
            },
    {
        Self::parse(text)
    }
}

/// A 12-hour reading names the hour it was read from, and back.
pub proof fn lemma_twelve_hour_round_trip(hour: int, twelve: int, pm: bool)
    ensures
        0 <= hour < 24 ==> {
            let (h, p) = twelve_hour(hour);
            1 <= h <= 12 && from_twelve_hour(h, p) == hour
        },
        1 <= twelve <= 12 ==> {
            let back = from_twelve_hour(twelve, pm);
            0 <= back < 24 && twelve_hour(back) == (twelve, pm)
        },
{
}

/// Writing a time and parsing the text gives the time back.
pub proof fn lemma_time_text_round_trip(t: Clock)
    requires
        0 <= t.hour < 24,
        0 <= t.minute < 60,
    ensures
        parse_time_text(format_time(t)) == Some(t),
{
    let h = padded_decimal(t.hour, 2);
    let m = padded_decimal(t.minute, 2);
    lemma_padded_parses(t.hour as nat, 2, false, 0, 255);
    lemma_padded_parses(t.minute as nat, 2, false, 0, 255);
    let f = format_time(t);
    assert(f =~= h + seq![':'] + m);
    assert(f[0] == h[0]);
    assert(f.last() == m.last());
    crate::text::lemma_trimmed_unchanged(f);
    lemma_first_index_after(h, ':', m);
    assert(f.subrange(0, h.len() as int) =~= h);
    assert(f.subrange(h.len() as int + 1, f.len() as int) =~= m);
}

/// Whether times show on a 12-hour clock with AM and PM, or a 24-hour one.
#[derive(Clone, Copy, Debug, PartialEq, Eq, Structural, Hash)]
pub enum HourCycle {
    /// 1 to 12, with AM and PM.
    H12,
    /// 00 to 23.
    H24,
}

impl Default for HourCycle {
    fn default() -> (cycle: Self)
        ensures
            cycle == HourCycle::H12,
    {
        HourCycle::H12
    }
}

// ---------------------------------------------------------------------------
// Laws of date arithmetic
// ---------------------------------------------------------------------------

/// Counting a date's days from the epoch and turning the count back into a
/// date gives the same date.
pub proof fn lemma_days_round_trip(d: Ymd)
    requires
        is_valid_ymd(d),
    ensures
        days_to_civil(epoch_day(d)) == d,
{
    lemma_epoch_day_in_range(d);
    lemma_days_to_civil(epoch_day(d));
    lemma_epoch_day_injective(days_to_civil(epoch_day(d)), d);
}

/// Adding `a` days and then `b` days is adding `a + b` days; adding none
/// changes nothing.
pub proof fn lemma_add_days_compose(d: Ymd, a: int, b: int)
    requires
        is_valid_ymd(d),
        first_day() <= epoch_day(d) + a <= last_day(),
        first_day() <= epoch_day(d) + a + b <= last_day(),
    ensures
        days_to_civil(epoch_day(days_to_civil(epoch_day(d) + a)) + b) == days_to_civil(
            epoch_day(d) + a + b,
        ),
        days_to_civil(epoch_day(d) + 0) == d,
{
    lemma_days_to_civil(epoch_day(d) + a);
    lemma_days_round_trip(d);
}

/// A week later is the same weekday, and the next day is the next weekday.
pub proof fn lemma_weekday_steps(d: Ymd)
    requires
        is_valid_ymd(d),
        epoch_day(d) + 7 <= last_day(),
    ensures
        weekday_of(days_to_civil(epoch_day(d) + 7)) == weekday_of(d),
        weekday_of(days_to_civil(epoch_day(d) + 1)) == (weekday_of(d) + 1) % 7,
{
    let n = epoch_day(d);
    lemma_epoch_day_in_range(d);
    lemma_days_to_civil(n + 7);
    lemma_days_to_civil(n + 1);
    lemma_week_mod(n);
}

/// Weekday arithmetic modulo seven.
proof fn lemma_week_mod(n: int)
    ensures
        (n + 7 + 4) % 7 == (n + 4) % 7,
        (n + 1 + 4) % 7 == ((n + 4) % 7 + 1) % 7,
{
}

/// Clamping to bounds that are in order lands within them, and leaves a date
/// already within them alone.
pub proof fn lemma_clamp_within(a: Ymd, lo: Ymd, hi: Ymd)
    requires
        !ymd_before(hi, lo),
    ensures
        !ymd_before(clamp_ymd(a, Some(lo), Some(hi)), lo),
        !ymd_before(hi, clamp_ymd(a, Some(lo), Some(hi))),
        !ymd_before(a, lo) && !ymd_before(hi, a) ==> clamp_ymd(a, Some(lo), Some(hi)) == a,
        clamp_ymd(a, None, None) == a,
{
}

/// Adding months moves the month index by that much, gives a valid date,
/// and keeps the day where the target month has it, and otherwise gives
/// exactly the last day of the target month; adding no months changes
/// nothing.
pub proof fn lemma_add_months(d: Ymd, months: int)
    requires
        is_valid_ymd(d),
        months_addable(d, months),
    ensures
        month_index(add_months_ymd(d, months)) == month_index(d) + months,
        add_months_ymd(d, months).day <= d.day,
        1 <= add_months_ymd(d, months).month <= 12,
        1 <= add_months_ymd(d, months).day <= month_length(
            add_months_ymd(d, months).year,
            add_months_ymd(d, months).month,
        ),
        add_months_ymd(d, 0) == d,
        d.day <= month_length(add_months_ymd(d, months).year, add_months_ymd(d, months).month)
            ==> add_months_ymd(d, months).day == d.day,
        d.day > month_length(add_months_ymd(d, months).year, add_months_ymd(d, months).month)
            ==> add_months_ymd(d, months).day == month_length(
            add_months_ymd(d, months).year,
            add_months_ymd(d, months).month,
        ),
{
    let index = month_index(d);
    assert((index + 0) / 12 == d.year);
    assert((index + 0) % 12 + 1 == d.month);
}

} // verus!
