//! How date and time pickers open, and what their wheels pick.
use crate::calendar::{bound_views, out_of_range};
use crate::datetime::{
    clamp_ymd, days_in_month, is_valid_ymd, lemma_clamp_within, month_length, ymd_before, CalendarDate,
    Ymd,
};
use vstd::prelude::*;

verus! {

/// The platform look a component takes.
#[derive(Clone, Copy, Debug, PartialEq, Eq, Structural, Hash)]
pub enum ComponentMode {
    /// The iOS look.
    Ios,
    /// The Material Design look.
    Md,
}

/// How a date or time picker opens.
#[derive(Clone, Copy, Debug, PartialEq, Eq, Structural, Hash)]
pub enum PickerStyle {
    /// Wheels on iOS, a dialog on Material Design.
    Auto,
    /// Spinning columns in a bottom sheet with a Done button, as iOS's wheel picker.
    Wheels,
    /// A modal with a calendar or clock face and Cancel and OK buttons, as Material's date and time pickers.
    Dialog,
    /// A calendar (or wheels, for a time) anchored to the field, as iOS's compact picker. A bottom sheet on phones.
    Popover,
}

impl Default for PickerStyle {
    fn default() -> (value: Self)
        ensures
            value == PickerStyle::Auto,
    {
        PickerStyle::Auto
    }
}
impl ComponentMode {
    /// `ios` in the iOS look, `md` in the Material Design look.
    pub fn pick<T>(self, ios: T, md: T) -> (picked: T)
        ensures
            picked == (match self {
                ComponentMode::Ios => ios,
                ComponentMode::Md => md,
            }),
    {
        match self {
            ComponentMode::Ios => ios,
            ComponentMode::Md => md,
        }
    }
}

/// The style a picker takes in `mode`: `Auto` becomes wheels on iOS and a
/// dialog on Material Design; any other style stays.
pub open spec fn resolved_style(style: PickerStyle, mode: ComponentMode) -> PickerStyle {
    match style {
        PickerStyle::Auto => match mode {
            ComponentMode::Ios => PickerStyle::Wheels,
            ComponentMode::Md => PickerStyle::Dialog,
        },
        other => other,
    }
}

impl PickerStyle {
    /// The style to use in `mode`, with `Auto` settled.
    pub fn resolve(self, mode: ComponentMode) -> (style: Self)
        ensures
            style == resolved_style(self, mode),
            style != PickerStyle::Auto,
    {
        match self {
            PickerStyle::Auto => mode.pick(PickerStyle::Wheels, PickerStyle::Dialog),
            style => style,
        }
    }
}


/// The date a picker starts on when it opens: the chosen `value`, or `today`
/// when nothing is chosen yet, kept within `min..=max`.
pub fn picker_start(
    value: Option<CalendarDate>,
    today: CalendarDate,
    min: Option<CalendarDate>,
    max: Option<CalendarDate>,
) -> (start: CalendarDate)
    ensures
        start@ == clamp_ymd(
            match value {
                Some(v) => v@,
                None => today@,
            },
            bound_views(min),
            bound_views(max),
        ),
{
    let from = match value {
        Some(v) => v,
        None => today,
    };
    from.clamp_to(min, max)
}

/// The day a calendar-style picker holds as chosen when it opens on
/// `start`: none when the caller's check `refused` that day, so that OK
/// stays disabled until a day that can be picked is pressed.
pub fn picker_choice_on_open(start: CalendarDate, refused: bool) -> (choice: Option<CalendarDate>)
    ensures
        choice == (if refused {
            None
        } else {
            Some(start)
        }),
{
    if refused {
        None
    } else {
        Some(start)
    }
}

/// The first and last year the year wheel offers: the years of `min` and
/// `max`, or a hundred years before and fifty after `today`, with the last
/// never before the first.
pub open spec fn wheel_year_span(today: int, min: Option<Ymd>, max: Option<Ymd>) -> (int, int) {
    let first = match min {
        Some(lo) => lo.year,
        None => today - 100,
    };
    let last = match max {
        Some(hi) => hi.year,
        None => today + 50,
    };
    (first, if last < first { first } else { last })
}

/// The first and last year of a wheel date picker.
pub fn wheel_years(today: CalendarDate, min: Option<CalendarDate>, max: Option<CalendarDate>) -> (span: (
    i32,
    i32,
))
    requires
        i32::MIN + 100 <= today@.year <= i32::MAX - 50,
    ensures
        span.0 == wheel_year_span(today@.year, bound_views(min), bound_views(max)).0,
        span.1 == wheel_year_span(today@.year, bound_views(min), bound_views(max)).1,
        span.0 <= span.1,
{
    let back = today.year() - 100;
    let on = today.year() + 50;
    let first = match min {
        Some(lo) => lo.year(),
        None => back,
    };
    let last = match max {
        Some(hi) => hi.year(),
        None => on,
    };
    (first, if last < first {
        first
    } else {
        last
    })
}

/// The date the wheels settle on when turned to `year`, `month` and `day`:
/// the day cut to the length of the month, then the date kept within the
/// bounds.
pub open spec fn wheel_settled(year: int, month: int, day: int, min: Option<Ymd>, max: Option<Ymd>) -> Ymd {
    let last = month_length(year, month);
    clamp_ymd(Ymd { year, month, day: if day > last { last } else { day } }, min, max)
}

/// The date the wheels settle on when turned to `year`, `month` and `day`,
/// or `None` where no day of that month is meant (a month outside 1 to 12,
/// or day 0).
pub fn wheel_date(
    year: i32,
    month: u8,
    day: u8,
    min: Option<CalendarDate>,
    max: Option<CalendarDate>,
) -> (date: Option<CalendarDate>)
    ensures
        date is Some <==> 1 <= month <= 12 && 1 <= day,
        date matches Some(d) ==> d@ == wheel_settled(
            year as int,
            month as int,
            day as int,
            bound_views(min),
            bound_views(max),
        ),
{
    let last = days_in_month(year, month);
    let day = if day > last {
        last
    } else {
        day
    };
    match CalendarDate::new(year, month, day) {
        Some(next) => Some(next.clamp_to(min, max)),
        None => None,
    }
}

/// The three wheels of a date picker.
#[derive(Clone, Copy, Debug, PartialEq, Eq, Structural, Hash)]
pub enum DateWheel {
    /// The month, January first.
    Month,
    /// The day of the month, from 1.
    Day,
    /// The year, from the first year the wheel offers.
    Year,
}

/// The row each wheel shows for `date`: the month and day counted from
/// zero, and the year counted from `first_year`, never below zero.
pub fn wheel_rows(date: CalendarDate, first_year: i32) -> (rows: (usize, usize, usize))
    ensures
        rows.0 == date@.month - 1,
        rows.1 == date@.day - 1,
        rows.2 == (if date@.year < first_year { 0 } else { date@.year - first_year }),
{
    let month = date.month();
    let day = date.day();
    let year = date.year();
    let offset: i64 = year as i64 - first_year as i64;
    let row: usize = if offset < 0 {
        0
    } else {
        offset as usize
    };
    proof {
        assert(offset <= u32::MAX);
    }
    ((month - 1) as usize, (day - 1) as usize, row)
}

/// The date picked by turning `wheel` to row `row` while showing `date`:
/// the other two wheels keep their place.
pub fn wheel_pick(
    date: CalendarDate,
    wheel: DateWheel,
    row: usize,
    first_year: i32,
    min: Option<CalendarDate>,
    max: Option<CalendarDate>,
) -> (picked: CalendarDate)
    requires
        wheel == DateWheel::Month ==> row < 12,
        wheel == DateWheel::Day ==> row < month_length(date@.year, date@.month),
        wheel == DateWheel::Year ==> first_year + row <= i32::MAX,
    ensures
        picked@ == (match wheel {
            DateWheel::Month => wheel_settled(
                date@.year,
                row + 1,
                date@.day,
                bound_views(min),
                bound_views(max),
            ),
            DateWheel::Day => wheel_settled(
                date@.year,
                date@.month,
                row + 1,
                bound_views(min),
                bound_views(max),
            ),
            DateWheel::Year => wheel_settled(
                first_year + row,
                date@.month,
                date@.day,
                bound_views(min),
                bound_views(max),
            ),
        }),
{
    let year = date.year();
    let month = date.month();
    let day = date.day();
    let settled = match wheel {
        DateWheel::Month => wheel_date(year, row as u8 + 1, day, min, max),
        DateWheel::Day => wheel_date(year, month, row as u8 + 1, min, max),
        DateWheel::Year => {
            let turned: i64 = first_year as i64 + row as i64;
            wheel_date(turned as i32, month, day, min, max)
        },
    };
    match settled {
        Some(next) => next,
        None => date,
    }
}

/// Whatever the wheels are turned to, they settle on a real date, and on
/// one within `lo..=hi` when those bounds are in order; a date already
/// within the bounds is kept as turned.
pub proof fn lemma_wheels_settle_within_bounds(year: int, month: int, day: int, lo: Ymd, hi: Ymd)
    requires
        i32::MIN <= year <= i32::MAX,
        1 <= month <= 12,
        1 <= day,
        is_valid_ymd(lo),
        is_valid_ymd(hi),
        !ymd_before(hi, lo),
    ensures
        is_valid_ymd(wheel_settled(year, month, day, Some(lo), Some(hi))),
        is_valid_ymd(wheel_settled(year, month, day, None, None)),
        !ymd_before(wheel_settled(year, month, day, Some(lo), Some(hi)), lo),
        !ymd_before(hi, wheel_settled(year, month, day, Some(lo), Some(hi))),
        day <= month_length(year, month) ==> wheel_settled(year, month, day, None, None) == (Ymd {
            year,
            month,
            day,
        }),
{
    let last = month_length(year, month);
    let turned = Ymd { year, month, day: if day > last { last } else { day } };
    lemma_clamp_within(turned, lo, hi);
}

/// How the user ends a date picker's dialog or sheet.
#[derive(Clone, Copy, Debug, PartialEq, Eq, Structural, Hash)]
pub enum PickerAction {
    /// OK or Done, or a day picked straight from a popover calendar.
    Confirm,
    /// Cancel, or a dismissal.
    Cancel,
}

/// The picker's state after the user acts: its value, whether it is still
/// open, and the date reported to the listener, if any.
#[derive(Clone, Copy, Debug, PartialEq, Eq, Structural, Hash)]
pub struct PickerOutcome {
    /// The field's value.
    pub value: Option<CalendarDate>,
    /// The dialog or sheet is still open.
    pub open: bool,
    /// The date reported as the user's change.
    pub reported: Option<CalendarDate>,
}

/// The picker's state after `action`, from `value` with `choice` chosen.
pub open spec fn finished(value: Option<CalendarDate>, choice: Option<CalendarDate>, action: PickerAction) -> PickerOutcome {
    match action {
        PickerAction::Confirm => match choice {
            Some(date) => PickerOutcome { value: Some(date), open: false, reported: Some(date) },
            None => PickerOutcome { value, open: true, reported: None },
        },
        PickerAction::Cancel => PickerOutcome { value, open: false, reported: None },
    }
}

/// What confirming or cancelling does to a picker holding `value`, with
/// `choice` the date chosen in it so far: confirming a choice commits it,
/// closes the picker and reports it; confirming with nothing chosen does
/// nothing, as the button is disabled; cancelling closes the picker and
/// keeps the value.
pub fn picker_finish(value: Option<CalendarDate>, choice: Option<CalendarDate>, action: PickerAction) -> (outcome: PickerOutcome)
    ensures
        outcome == finished(value, choice, action),
{
    match action {
        PickerAction::Confirm => match choice {
            Some(date) => PickerOutcome { value: Some(date), open: false, reported: Some(date) },
            None => PickerOutcome { value, open: true, reported: None },
        },
        PickerAction::Cancel => PickerOutcome { value, open: false, reported: None },
    }
}

/// Whether the optional bounds are in order where both are given.
pub open spec fn bounds_in_order(min: Option<CalendarDate>, max: Option<CalendarDate>) -> bool {
    (min matches Some(lo) && max matches Some(hi)) ==> !ymd_before(max->0@, min->0@)
}

/// In the calendar styles, a date a picker confirms can be picked: whether
/// the choice is the one held on opening, on the start date kept within
/// the bounds, or a day pressed in the calendar, confirming reports it,
/// makes it the value and closes the picker, and the date lies within
/// `min..=max` and was not refused by the caller's check. Cancelling keeps
/// the value and reports nothing.
pub proof fn lemma_confirmed_dates_can_be_picked(
    value: Option<CalendarDate>,
    from: CalendarDate,
    start: CalendarDate,
    start_refused: bool,
    pressed: CalendarDate,
    pressed_refused: bool,
    min: Option<CalendarDate>,
    max: Option<CalendarDate>,
)
    requires
        bounds_in_order(min, max),
        start@ == clamp_ymd(from@, bound_views(min), bound_views(max)),
    ensures
        ({
            let on_open = if start_refused { None } else { Some(start) };
            let on_press = if out_of_range(pressed@, bound_views(min), bound_views(max))
                || pressed_refused {
                None
            } else {
                Some(pressed)
            };
            &&& finished(value, on_open, PickerAction::Confirm).reported matches Some(d) ==> {
                &&& d == start && !start_refused
                &&& !out_of_range(d@, bound_views(min), bound_views(max))
                &&& finished(value, on_open, PickerAction::Confirm).value == Some(d)
                &&& !finished(value, on_open, PickerAction::Confirm).open
            }
            &&& finished(value, on_press, PickerAction::Confirm).reported matches Some(d) ==> {
                &&& d == pressed && !pressed_refused
                &&& !out_of_range(d@, bound_views(min), bound_views(max))
                &&& finished(value, on_press, PickerAction::Confirm).value == Some(d)
            }
            &&& finished(value, on_open, PickerAction::Cancel).value == value
            &&& finished(value, on_open, PickerAction::Cancel).reported is None
            &&& finished(value, on_press, PickerAction::Cancel).value == value
            &&& finished(value, on_press, PickerAction::Cancel).reported is None
        }),
{
    match (min, max) {
        (Some(lo), Some(hi)) => {
            lemma_clamp_within(from@, lo@, hi@);
        },
        _ => {},
    }
}

} // verus!
