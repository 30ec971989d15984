//! The text and layout of a month calendar.
use crate::datetime::{
    add_months_ymd, clamp_ymd, days_to_civil, epoch_day, first_day, last_day, lemma_days_to_civil,
    month_index, month_length, months_addable, weekday_of, ymd_before, CalendarDate, Ymd,
};
use crate::text::{decimal, decimal_chars, padded_decimal, push_chars, push_padded, push_str};
use vstd::prelude::*;

verus! {

/// The name at `index` of a localised list, or the number `index + 1` when
/// the list is too short.
pub open spec fn name_or_number(names: Seq<String>, index: int) -> Seq<char> {
    if 0 <= index < names.len() {
        names[index]@
    } else {
        decimal((index + 1) as nat)
    }
}

/// "Saturday, September 19, 2026": weekday and month names, day and year.
pub open spec fn long_date_text(weekdays: Seq<String>, months: Seq<String>, d: Ymd) -> Seq<char> {
    name_or_number(weekdays, weekday_of(d)) + ", "@ + name_or_number(months, d.month - 1) + " "@
        + padded_decimal(d.day, 0) + ", "@ + padded_decimal(d.year, 0)
}

/// "Sep 19, 2026": short month name, day and year.
pub open spec fn short_date_text(months_short: Seq<String>, d: Ymd) -> Seq<char> {
    name_or_number(months_short, d.month - 1) + " "@ + padded_decimal(d.day, 0) + ", "@
        + padded_decimal(d.year, 0)
}

/// "September 2026": month name and year.
pub open spec fn month_year_text(months: Seq<String>, d: Ymd) -> Seq<char> {
    name_or_number(months, d.month - 1) + " "@ + padded_decimal(d.year, 0)
}

/// A name from a localised list, tolerating a list that is too short.
pub fn name_at(names: &[String], index: usize) -> (name: String)
    requires
        index < usize::MAX,
    ensures
        name@ == name_or_number(names@, index as int),
{
    if index < names.len() {
        names[index].clone()
    } else {
        let mut name = String::new();
        push_chars(&mut name, &decimal_chars(index as u64 + 1));
        name
    }
}

/// Appends the name at `index` of `names`, or the number after `index`.
fn push_name(text: &mut String, names: &[String], index: usize)
    requires
        index < usize::MAX,
    ensures
        final(text)@ == old(text)@ + name_or_number(names@, index as int),
{
    let name = name_at(names, index);
    push_str(text, name.as_str());
}

/// "Saturday, September 19, 2026", for accessible names.
pub fn long_date(weekdays: &[String], months: &[String], date: CalendarDate) -> (text: String)
    ensures
        text@ == long_date_text(weekdays@, months@, date@),
{
    let mut text = String::new();
    push_name(&mut text, weekdays, date.weekday() as usize);
    push_str(&mut text, ", ");
    push_name(&mut text, months, (date.month() - 1) as usize);
    push_str(&mut text, " ");
    push_padded(&mut text, date.day() as i64, 0);
    push_str(&mut text, ", ");
    push_padded(&mut text, date.year() as i64, 0);
    proof {
        assert(text@ =~= long_date_text(weekdays@, months@, date@));
    }
    text
}

/// "Sep 19, 2026", for a field showing the chosen date.
pub fn short_date(months_short: &[String], date: CalendarDate) -> (text: String)
    ensures
        text@ == short_date_text(months_short@, date@),
{
    let mut text = String::new();
    push_name(&mut text, months_short, (date.month() - 1) as usize);
    push_str(&mut text, " ");
    push_padded(&mut text, date.day() as i64, 0);
    push_str(&mut text, ", ");
    push_padded(&mut text, date.year() as i64, 0);
    proof {
        assert(text@ =~= short_date_text(months_short@, date@));
    }
    text
}

/// "September 2026".
pub fn month_year(months: &[String], date: CalendarDate) -> (text: String)
    ensures
        text@ == month_year_text(months@, date@),
{
    let mut text = String::new();
    push_name(&mut text, months, (date.month() - 1) as usize);
    push_str(&mut text, " ");
    push_padded(&mut text, date.year() as i64, 0);
    proof {
        assert(text@ =~= month_year_text(months@, date@));
    }
    text
}

/// The number of blank cells before the first of the month `month`, in a
/// grid whose rows start on `first_weekday` (0 for Sunday; taken mod 7).
pub open spec fn leading_blanks(month: Ymd, first_weekday: int) -> int {
    (7 + weekday_of(Ymd { day: 1, ..month }) - first_weekday % 7) % 7
}

/// The days shown for `month`: leading blanks up to the first weekday, then
/// each day of the month.
pub fn month_cells(month: CalendarDate, first_weekday: u8) -> (cells: Vec<Option<CalendarDate>>)
    ensures
        cells.len() == leading_blanks(month@, first_weekday as int) + month_length(
            month@.year,
            month@.month,
        ),
        forall|i: int|
            0 <= i < leading_blanks(month@, first_weekday as int) ==> #[trigger] cells@[i] is None,
        forall|i: int|
            leading_blanks(month@, first_weekday as int) <= i < cells.len() ==> (
            #[trigger] cells@[i] matches Some(d) && d@ == (Ymd {
                year: month@.year,
                month: month@.month,
                day: i - leading_blanks(month@, first_weekday as int) + 1,
            })),
{
    let first = month.first_of_month();
    let lead: u8 = (7 + first.weekday() - first_weekday % 7) % 7;
    let year = month.year();
    let month_number = month.month();
    let length = crate::datetime::days_in_month(year, month_number);
    let mut cells: Vec<Option<CalendarDate>> = Vec::new();
    let mut i: u8 = 0;
    while i < lead
        invariant
            i <= lead,
            cells.len() == i,
            forall|j: int| 0 <= j < i ==> #[trigger] cells@[j] is None,
        decreases lead - i,
    {
        cells.push(None);
        i = i + 1;
    }
    let mut day: u8 = 1;
    while day <= length
        invariant
            1 <= day <= length + 1,
            length == month_length(year as int, month_number as int),
            length <= 31,
            cells.len() == lead + day - 1,
            lead == leading_blanks(month@, first_weekday as int),
            year == month@.year,
            month_number == month@.month,
            1 <= month_number <= 12,
            forall|j: int| 0 <= j < lead ==> #[trigger] cells@[j] is None,
            forall|j: int|
                lead <= j < cells.len() ==> (#[trigger] cells@[j] matches Some(d) && d@ == (Ymd {
                    year: year as int,
                    month: month_number as int,
                    day: j - lead + 1,
                })),
        decreases length + 1 - day,
    {
        let date = CalendarDate::new(year, month_number, day).unwrap();
        cells.push(Some(date));
        day = day + 1;
    }
    cells
}

/// Every day of the month sits in the column of its weekday: the cell at
/// `index` holds a day whose weekday is `(index + first_weekday) % 7`.
pub proof fn lemma_cells_line_up_with_weekdays(month: Ymd, first_weekday: int, index: int)
    requires
        0 <= first_weekday,
        leading_blanks(month, first_weekday) <= index,
    ensures
        weekday_of(
            Ymd { year: month.year, month: month.month, day: index - leading_blanks(month, first_weekday) + 1 },
        ) == (index + first_weekday) % 7,
{
    let first = Ymd { day: 1, ..month };
    let lead = leading_blanks(month, first_weekday);
    let day = Ymd { year: month.year, month: month.month, day: index - lead + 1 };
    assert(epoch_day(day) == epoch_day(first) + index - lead);
    let e = epoch_day(first);
    assert(((e + index - lead) + 4) % 7 == (index + first_weekday) % 7) by (nonlinear_arith)
        requires
            lead == (7 + (e + 4) % 7 - first_weekday % 7) % 7,
            first_weekday >= 0,
    ;
}

// ---------------------------------------------------------------------------
// Keyboard and header navigation
// ---------------------------------------------------------------------------

/// The keys that move focus around a calendar grid.
#[derive(Clone, Copy, Debug, PartialEq, Eq, Structural)]
pub enum CalendarKey {
    /// The day before.
    Left,
    /// The day after.
    Right,
    /// The same weekday a week earlier.
    Up,
    /// The same weekday a week later.
    Down,
    /// The first day of the week row.
    Home,
    /// The last day of the week row.
    End,
    /// The same day a month earlier (a year with Shift).
    PageUp,
    /// The same day a month later (a year with Shift).
    PageDown,
}

/// The column of `d` in a grid whose rows start on `first_weekday` (0 to 6).
pub open spec fn column_of(d: Ymd, first_weekday: int) -> int {
    (7 + weekday_of(d) - first_weekday) % 7
}

/// The date that `key` moves focus to from `d`, before clamping.
pub open spec fn key_move(d: Ymd, key: CalendarKey, shift: bool, first_weekday: int) -> Ymd {
    let day = epoch_day(d);
    match key {
        CalendarKey::Left => days_to_civil(day - 1),
        CalendarKey::Right => days_to_civil(day + 1),
        CalendarKey::Up => days_to_civil(day - 7),
        CalendarKey::Down => days_to_civil(day + 7),
        CalendarKey::Home => days_to_civil(day - column_of(d, first_weekday)),
        CalendarKey::End => days_to_civil(day + 6 - column_of(d, first_weekday)),
        CalendarKey::PageUp => add_months_ymd(d, if shift { -12 } else { -1 }),
        CalendarKey::PageDown => add_months_ymd(d, if shift { 12 } else { 1 }),
    }
}

/// Whether `d` is far enough from the ends of the representable dates for
/// every key to move from it.
pub open spec fn keys_can_move(d: Ymd) -> bool {
    &&& first_day() + 7 <= epoch_day(d) <= last_day() - 7
    &&& months_addable(d, -12)
    &&& months_addable(d, 12)
}

/// The optional bounds as views.
pub open spec fn bound_views(bound: Option<CalendarDate>) -> Option<Ymd> {
    match bound {
        Some(b) => Some(b@),
        None => None,
    }
}

/// Whether `date` lies outside the optional bounds `min..=max`.
pub open spec fn out_of_range(d: Ymd, min: Option<Ymd>, max: Option<Ymd>) -> bool {
    ||| (min matches Some(lo) && ymd_before(d, lo))
    ||| (max matches Some(hi) && ymd_before(hi, d))
}

/// The date that focus moves to when `key` is pressed on `date`, kept within
/// `min..=max`.
pub fn key_target(
    date: CalendarDate,
    key: CalendarKey,
    shift: bool,
    first_weekday: u8,
    min: Option<CalendarDate>,
    max: Option<CalendarDate>,
) -> (target: CalendarDate)
    requires
        first_weekday < 7,
        keys_can_move(date@),
    ensures
        target@ == clamp_ymd(
            key_move(date@, key, shift, first_weekday as int),
            bound_views(min),
            bound_views(max),
        ),
{
    let column = ((7 + date.weekday() - first_weekday) % 7) as i64;
    let next = match key {
        CalendarKey::Left => date.add_days(-1),
        CalendarKey::Right => date.add_days(1),
        CalendarKey::Up => date.add_days(-7),
        CalendarKey::Down => date.add_days(7),
        CalendarKey::Home => date.add_days(-column),
        CalendarKey::End => date.add_days(6 - column),
        CalendarKey::PageUp => date.add_months(if shift {
            -12
        } else {
            -1
        }),
        CalendarKey::PageDown => date.add_months(if shift {
            12
        } else {
            1
        }),
    };
    next.clamp_to(min, max)
}

/// Whether `date` cannot be picked because it lies outside `min..=max`.
pub fn is_out_of_range(date: CalendarDate, min: Option<CalendarDate>, max: Option<CalendarDate>) -> (out: bool)
    ensures
        out == out_of_range(date@, bound_views(min), bound_views(max)),
{
    let below = match min {
        Some(lo) => date.is_before(lo),
        None => false,
    };
    let above = match max {
        Some(hi) => hi.is_before(date),
        None => false,
    };
    below || above
}

/// Home moves to the first column of the row and End to the last, within
/// the same week.
pub proof fn lemma_home_and_end_stay_in_the_row(d: Ymd, first_weekday: int)
    requires
        crate::datetime::is_valid_ymd(d),
        keys_can_move(d),
        0 <= first_weekday < 7,
    ensures
        column_of(key_move(d, CalendarKey::Home, false, first_weekday), first_weekday) == 0,
        column_of(key_move(d, CalendarKey::End, false, first_weekday), first_weekday) == 6,
        epoch_day(d) - 6 <= epoch_day(key_move(d, CalendarKey::Home, false, first_weekday)) <= epoch_day(d),
        epoch_day(d) <= epoch_day(key_move(d, CalendarKey::End, false, first_weekday)) <= epoch_day(d) + 6,
{
    let day = epoch_day(d);
    let column = column_of(d, first_weekday);
    assert(0 <= column < 7);
    lemma_days_to_civil(day - column);
    lemma_days_to_civil(day + 6 - column);
    assert((7 + ((day - column) + 4) % 7 - first_weekday) % 7 == 0) by (nonlinear_arith)
        requires
            column == (7 + (day + 4) % 7 - first_weekday) % 7,
            0 <= first_weekday < 7,
    ;
    assert((7 + ((day + 6 - column) + 4) % 7 - first_weekday) % 7 == 6) by (nonlinear_arith)
        requires
            column == (7 + (day + 4) % 7 - first_weekday) % 7,
            0 <= first_weekday < 7,
    ;
}

/// The last day before the month shown from `month` (the first of a month).
pub open spec fn day_before_month(month: Ymd) -> Ymd {
    days_to_civil(epoch_day(add_months_ymd(add_months_ymd(month, -1), 1)) - 1)
}

/// Whether the header may step back a month from the one starting `month`:
/// some day of the month before is on or after `min`.
pub fn can_go_back(month: CalendarDate, min: Option<CalendarDate>) -> (can: bool)
    requires
        months_addable(month@, -1),
        months_addable(add_months_ymd(month@, -1), 1),
    ensures
        can == match min {
            Some(lo) => !ymd_before(day_before_month(month@), lo@),
            None => true,
        },
{
    match min {
        None => true,
        Some(lo) => {
            let previous = month.add_months(-1);
            proof {
                crate::datetime::lemma_add_months(month@, -1);
                assert(previous@.year * 12 + previous@.month - 1 == month@.year * 12 + month@.month
                    - 2);
            }
            let back = previous.add_months(1);
            proof {
                crate::datetime::lemma_add_months(previous@, 1);
                crate::datetime::lemma_epoch_day_in_range(back@);
                if epoch_day(back@) - 1 < first_day() {
                    lemma_first_day_is_far(back@);
                }
            }
            !back.add_days(-1).is_before(lo)
        },
    }
}

/// A valid date whose month index fits `i32` lies far after the first
/// representable day.
proof fn lemma_first_day_is_far(d: Ymd)
    requires
        crate::datetime::is_valid_ymd(d),
        i32::MIN <= d.year * 12,
    ensures
        epoch_day(d) - 1 >= first_day(),
{
    let first = Ymd { year: i32::MIN as int, month: 1, day: 1 };
    assert(crate::datetime::ymd_before(first, d));
    crate::datetime::lemma_before_iff_earlier(first, d);
}

/// Whether the header may step forward a month from the one starting
/// `month`: the first of the next month is on or before `max`.
pub fn can_go_forward(month: CalendarDate, max: Option<CalendarDate>) -> (can: bool)
    requires
        months_addable(month@, 1),
    ensures
        can == match max {
            Some(hi) => !ymd_before(hi@, add_months_ymd(month@, 1)),
            None => true,
        },
{
    match max {
        None => true,
        Some(hi) => !hi.is_before(month.add_months(1)),
    }
}

/// The date that focus moves to when year `year` is picked from the year
/// list: the focused date moved by whole years, kept within `min..=max`.
pub fn year_target(
    focus: CalendarDate,
    year: i32,
    min: Option<CalendarDate>,
    max: Option<CalendarDate>,
) -> (target: CalendarDate)
    requires
        months_addable(focus@, (year - focus@.year) * 12),
        i32::MIN <= (year - focus@.year) * 12 <= i32::MAX,
    ensures
        target@ == clamp_ymd(
            add_months_ymd(focus@, (year - focus@.year) * 12),
            bound_views(min),
            bound_views(max),
        ),
{
    focus.add_months((year - focus.year()) * 12).clamp_to(min, max)
}

/// The date a press on day `date` picks: none where the day cannot be
/// picked, because it lies outside `min..=max` or the caller's own check
/// `refused` it; the day itself otherwise, which becomes the value, takes
/// the focus and is reported.
pub fn calendar_pick(
    date: CalendarDate,
    min: Option<CalendarDate>,
    max: Option<CalendarDate>,
    refused: bool,
) -> (picked: Option<CalendarDate>)
    ensures
        picked == (if out_of_range(date@, bound_views(min), bound_views(max)) || refused {
            None
        } else {
            Some(date)
        }),
{
    if is_out_of_range(date, min, max) || refused {
        None
    } else {
        Some(date)
    }
}

/// The first and last year of the calendar's year list: the years of `min`
/// and `max`, or a hundred years before and fifty after `today`. The list
/// is empty when the first comes after the last.
pub fn calendar_years(today: CalendarDate, min: Option<CalendarDate>, max: Option<CalendarDate>) -> (span: (
    i32,
    i32,
))
    requires
        i32::MIN + 100 <= today@.year <= i32::MAX - 50,
    ensures
        span.0 == (match min {
            Some(lo) => lo@.year,
            None => today@.year - 100,
        }),
        span.1 == (match max {
            Some(hi) => hi@.year,
            None => today@.year + 50,
        }),
{
    let back = today.year() - 100;
    let on = today.year() + 50;
    let low = match min {
        Some(lo) => lo.year(),
        None => back,
    };
    let high = match max {
        Some(hi) => hi.year(),
        None => on,
    };
    (low, high)
}

/// A step of the calendar header a month back (or forward, when
/// `forward`) from the month shown, which starts at `month`, with focus on
/// `focus`: the month shown next, and the focus moved by the same month and
/// kept within `min..=max`.
pub fn month_step(
    month: CalendarDate,
    focus: CalendarDate,
    forward: bool,
    min: Option<CalendarDate>,
    max: Option<CalendarDate>,
) -> (step: (CalendarDate, CalendarDate))
    requires
        months_addable(month@, if forward { 1 } else { -1 }),
        months_addable(focus@, if forward { 1 } else { -1 }),
    ensures
        step.0@ == add_months_ymd(month@, if forward { 1 } else { -1 }),
        step.1@ == clamp_ymd(
            add_months_ymd(focus@, if forward { 1 } else { -1 }),
            bound_views(min),
            bound_views(max),
        ),
{
    let months: i32 = if forward {
        1
    } else {
        -1
    };
    (month.add_months(months), focus.add_months(months).clamp_to(min, max))
}

/// What each key does to the focused date `d`: the arrows move one day
/// back or on, or one week back or on; PageUp and PageDown move one month
/// back or on, a whole year with Shift, keeping the day where the target
/// month has it and otherwise going to its last day.
pub proof fn lemma_keys_move_by_their_step(d: Ymd, first_weekday: int)
    requires
        crate::datetime::is_valid_ymd(d),
        keys_can_move(d),
        0 <= first_weekday < 7,
    ensures
        epoch_day(key_move(d, CalendarKey::Left, false, first_weekday)) == epoch_day(d) - 1,
        epoch_day(key_move(d, CalendarKey::Right, false, first_weekday)) == epoch_day(d) + 1,
        epoch_day(key_move(d, CalendarKey::Up, false, first_weekday)) == epoch_day(d) - 7,
        epoch_day(key_move(d, CalendarKey::Down, false, first_weekday)) == epoch_day(d) + 7,
        month_index(key_move(d, CalendarKey::PageUp, false, first_weekday)) == month_index(d) - 1,
        month_index(key_move(d, CalendarKey::PageUp, true, first_weekday)) == month_index(d) - 12,
        month_index(key_move(d, CalendarKey::PageDown, false, first_weekday)) == month_index(d) + 1,
        month_index(key_move(d, CalendarKey::PageDown, true, first_weekday)) == month_index(d) + 12,
        forall|shift: bool, key: CalendarKey|
            (key == CalendarKey::PageUp || key == CalendarKey::PageDown) ==> {
                let r = #[trigger] key_move(d, key, shift, first_weekday);
                &&& d.day <= month_length(r.year, r.month) ==> r.day == d.day
                &&& d.day > month_length(r.year, r.month) ==> r.day == month_length(r.year, r.month)
            },
{
    let day = epoch_day(d);
    lemma_days_to_civil(day - 1);
    lemma_days_to_civil(day + 1);
    lemma_days_to_civil(day - 7);
    lemma_days_to_civil(day + 7);
    crate::datetime::lemma_add_months(d, -1);
    crate::datetime::lemma_add_months(d, -12);
    crate::datetime::lemma_add_months(d, 1);
    crate::datetime::lemma_add_months(d, 12);
}

} // verus!
