use g3_ui::line::line_class;
use g3_ui::body_styles::body_class;
use g3_ui::navbar_styles::navbar_class;
use g3_ui::popover::PopoverPresence;
use g3_ui::overlay::hold_change;
use g3_ui::alert::{button_order, AlertButton};
use g3_ui::alert::{confirm_color, role_color, role_fill, sheet_button_is_danger, AlertButtonRole};
use g3_ui::{ButtonFill, Color};
use g3_ui::card::card_shape;
use g3_ui::checkbox::aria_checked;
use g3_ui::back_button::{back_action, BackAction};
use g3_ui::field::{reports_commit, Debounce};
use g3_ui::stepper::{key_delta, StepperKey};
use g3_ui::date_picker::{
    picker_start, wheel_date, wheel_pick, wheel_rows, wheel_years, ComponentMode, DateWheel,
};
use g3_ui::list::{item_shape, ItemDetail};
use g3_ui::radio::{radio_press, RadioPress};
use g3_ui::reorder::{accepts_drop, handle_key_move, move_announcement, ReorderKey};
use g3_ui::segment::segment_pick;
use g3_ui::select::{chosen_index, SelectOption};
use g3_ui::CalendarDate;

fn date(year: i32, month: u8, day: u8) -> CalendarDate {
    CalendarDate::new(year, month, day).unwrap()
}

#[test]
fn the_picker_opens_on_the_value_or_today_within_bounds() {
    let today = date(2026, 5, 10);
    assert_eq!(picker_start(None, today, None, None), today);
    assert_eq!(picker_start(Some(date(2020, 1, 1)), today, None, None), date(2020, 1, 1));
    assert_eq!(
        picker_start(None, today, Some(date(2026, 6, 1)), None),
        date(2026, 6, 1)
    );
    assert_eq!(
        picker_start(Some(date(2030, 1, 1)), today, None, Some(date(2027, 12, 31))),
        date(2027, 12, 31)
    );
}

#[test]
fn the_year_wheel_spans_the_bounds_or_a_default_range() {
    let today = date(2026, 5, 10);
    assert_eq!(wheel_years(today, None, None), (1926, 2076));
    assert_eq!(wheel_years(today, Some(date(2000, 1, 1)), Some(date(2030, 1, 1))), (2000, 2030));
    assert_eq!(wheel_years(today, Some(date(2100, 1, 1)), None), (2100, 2100));
}

#[test]
fn the_wheels_cut_the_day_to_the_month() {
    assert_eq!(wheel_date(2026, 2, 31, None, None), Some(date(2026, 2, 28)));
    assert_eq!(wheel_date(2024, 2, 31, None, None), Some(date(2024, 2, 29)));
    assert_eq!(wheel_date(2026, 4, 31, None, None), Some(date(2026, 4, 30)));
    assert_eq!(wheel_date(2026, 13, 1, None, None), None);
    assert_eq!(wheel_date(2026, 1, 0, None, None), None);
    assert_eq!(
        wheel_date(2026, 1, 15, Some(date(2026, 2, 1)), None),
        Some(date(2026, 2, 1))
    );
}

#[test]
fn the_wheels_show_and_turn_each_column() {
    let shown = date(2026, 3, 31);
    assert_eq!(wheel_rows(shown, 1926), (2, 30, 100));
    assert_eq!(wheel_rows(shown, 2030), (2, 30, 0));
    assert_eq!(wheel_pick(shown, DateWheel::Month, 1, 1926, None, None), date(2026, 2, 28));
    assert_eq!(wheel_pick(shown, DateWheel::Day, 0, 1926, None, None), date(2026, 3, 1));
    assert_eq!(wheel_pick(shown, DateWheel::Year, 98, 1926, None, None), date(2024, 3, 31));
}

#[test]
fn handles_move_rows_one_place_by_key() {
    assert_eq!(handle_key_move(ReorderKey::Up, false, 2, 5), Some(1));
    assert_eq!(handle_key_move(ReorderKey::Down, false, 2, 5), Some(3));
    assert_eq!(handle_key_move(ReorderKey::Up, false, 0, 5), None);
    assert_eq!(handle_key_move(ReorderKey::Down, false, 4, 5), None);
    assert_eq!(handle_key_move(ReorderKey::Left, false, 2, 5), None);
    assert_eq!(handle_key_move(ReorderKey::Left, true, 2, 5), Some(1));
    assert_eq!(handle_key_move(ReorderKey::Right, true, 2, 5), Some(3));
    assert_eq!(handle_key_move(ReorderKey::Other, true, 2, 5), None);
    assert_eq!(move_announcement(0, 5), "1 / 5");
    assert_eq!(move_announcement(11, 12), "12 / 12");
}

#[test]
fn only_real_moves_are_passed_on() {
    assert!(accepts_drop(true, false, 1, 3));
    assert!(!accepts_drop(true, false, 2, 2));
    assert!(!accepts_drop(true, true, 1, 3));
    assert!(!accepts_drop(false, false, 1, 3));
}

#[test]
fn radios_select_and_clear_on_press() {
    assert_eq!(radio_press(false, false, false), RadioPress::Select);
    assert_eq!(radio_press(true, false, false), RadioPress::Keep);
    assert_eq!(radio_press(true, true, false), RadioPress::Clear);
    assert_eq!(radio_press(false, true, true), RadioPress::Keep);
    assert_eq!(radio_press(true, true, true), RadioPress::Keep);
}

#[test]
fn segments_report_and_select_new_picks() {
    let pick = segment_pick(false, false, false);
    assert!(pick.report && pick.select);
    let deferred = segment_pick(false, false, true);
    assert!(deferred.report && !deferred.select);
    let same = segment_pick(false, true, false);
    assert!(!same.report && !same.select);
    let off = segment_pick(true, false, false);
    assert!(!off.report && !off.select);
}

#[test]
fn rows_take_their_shape_from_what_they_hold() {
    let plain = item_shape(false, false, false, false, ItemDetail::Auto, ComponentMode::Ios);
    assert!(!plain.interactive && !plain.detail && !plain.split);
    let tappable = item_shape(true, false, false, false, ItemDetail::Auto, ComponentMode::Ios);
    assert!(tappable.interactive && tappable.detail && !tappable.split);
    let material = item_shape(false, true, false, true, ItemDetail::Auto, ComponentMode::Md);
    assert!(material.interactive && !material.detail && material.split);
    let check = item_shape(false, false, true, true, ItemDetail::Show, ComponentMode::Ios);
    assert!(check.interactive && !check.detail && !check.split);
}

#[test]
fn the_select_shows_the_first_matching_option() {
    let options = vec![
        SelectOption::new(1u32, "One"),
        SelectOption::new(2u32, "Two"),
        SelectOption::new(2u32, "Second two"),
    ];
    assert_eq!(chosen_index(&options, Some(&2)), Some(1));
    assert_eq!(chosen_index(&options, Some(&1)), Some(0));
    assert_eq!(chosen_index(&options, Some(&9)), None);
    assert_eq!(chosen_index(&options, None), None);
}

#[test]
fn popovers_keep_their_panel_and_backdrop_for_the_exit() {
    let start = PopoverPresence::new(false);
    assert!(!start.shows_layer(false));
    let (opened, timer) = start.follow(true);
    assert!(!timer);
    assert!(opened.shows_panel(true) && opened.shows_backdrop(true));
    let (closed, timer) = opened.follow(false);
    assert!(timer);
    assert!(closed.shows_panel(false) && closed.shows_backdrop(false));
    let settled = closed.settle(false);
    assert!(settled.shows_panel(false));
    assert!(!settled.shows_backdrop(false));
    assert!(settled.shows_layer(false));
    let reopened = closed.settle(true);
    assert!(reopened.backdrop_present);
}

#[test]
fn overlays_take_and_give_back_their_hold() {
    assert_eq!(hold_change(false, true, false), Some(true));
    assert_eq!(hold_change(true, false, false), Some(false));
    assert_eq!(hold_change(true, true, false), None);
    assert_eq!(hold_change(false, true, true), None);
    assert_eq!(hold_change(true, true, true), Some(false));
}

#[test]
fn alerts_put_cancel_buttons_first() {
    let buttons = vec![
        AlertButton::new("Save"),
        AlertButton::cancel("Cancel"),
        AlertButton::destructive("Delete"),
        AlertButton::cancel("Later"),
    ];
    assert_eq!(button_order(&buttons), vec![1, 3, 0, 2]);
    assert_eq!(button_order(&[]), Vec::<usize>::new());
}

#[test]
fn alert_buttons_take_their_look_from_their_role() {
    assert_eq!(role_fill(AlertButtonRole::Cancel), ButtonFill::Outline);
    assert_eq!(role_fill(AlertButtonRole::Destructive), ButtonFill::Solid);
    assert_eq!(role_color(AlertButtonRole::Cancel), Color::Neutral);
    assert_eq!(role_color(AlertButtonRole::Destructive), Color::Danger);
    assert_eq!(role_color(AlertButtonRole::Default), Color::Accent);
    assert!(sheet_button_is_danger(Some(Color::Danger)));
    assert!(!sheet_button_is_danger(Some(Color::Accent)));
    assert!(!sheet_button_is_danger(None));
    assert_eq!(confirm_color(true), Color::Danger);
    assert_eq!(confirm_color(false), Color::Accent);
}

#[test]
fn cards_have_one_action_when_interactive() {
    let toggle = card_shape(true, false, false, true, false, false, false, true, false);
    assert!(toggle.interactive && toggle.action_on_title && !toggle.untitled_action);
    assert_eq!(toggle.pressed, Some(true));
    assert!(toggle.header);
    let link = card_shape(false, false, true, false, false, false, true, false, true);
    assert!(link.interactive && link.untitled_action && link.labelled_action);
    assert_eq!(link.pressed, None);
    assert!(link.aria_disabled && !link.header);
    let still = card_shape(false, false, false, false, true, false, false, false, true);
    assert!(!still.interactive && !still.untitled_action && !still.aria_disabled && still.header);
}

#[test]
fn checkboxes_report_mixed_checked_or_not() {
    assert_eq!(aria_checked(true, true), "mixed");
    assert_eq!(aria_checked(false, true), "true");
    assert_eq!(aria_checked(false, false), "false");
}

#[test]
fn back_buttons_go_back_or_fall_back() {
    assert_eq!(back_action(true, true, true, true), BackAction::Handler);
    assert_eq!(back_action(false, false, true, true), BackAction::Nothing);
    assert_eq!(back_action(false, true, true, true), BackAction::GoBack);
    assert_eq!(back_action(false, true, false, true), BackAction::Fallback);
    assert_eq!(back_action(false, true, false, false), BackAction::Nothing);
}

#[test]
fn only_the_latest_keystroke_reports_after_the_pause() {
    let mut debounce = Debounce::new();
    let first = debounce.typed();
    assert!(debounce.is_current(first));
    let second = debounce.typed();
    assert!(!debounce.is_current(first));
    assert!(debounce.is_current(second));
    assert!(reports_commit(false));
    assert!(!reports_commit(true));
}

#[test]
fn stepper_keys_step_where_they_can() {
    assert_eq!(key_delta(StepperKey::Up, 5, true, true), Some(5));
    assert_eq!(key_delta(StepperKey::Down, 5, true, true), Some(-5));
    assert_eq!(key_delta(StepperKey::Up, 5, false, true), None);
    assert_eq!(key_delta(StepperKey::Down, 5, true, false), None);
    assert_eq!(key_delta(StepperKey::Other, 5, true, true), None);
}

#[test]
fn bodies_and_navbars_take_their_look() {
    assert_eq!(
        body_class(ComponentMode::Ios),
        "g3-body flex-1 h-full overflow-hidden flex flex-col relative g3-body-ios bg-white"
    );
    assert_eq!(
        body_class(ComponentMode::Md),
        "g3-body flex-1 h-full overflow-hidden flex flex-col relative g3-body-md bg-gray-100"
    );
    assert_eq!(
        navbar_class(ComponentMode::Md),
        "g3-navbar flex min-h-0 flex-1 flex-col overflow-hidden bg-white g3-navbar-md"
    );
    assert_eq!(
        navbar_class(ComponentMode::Ios),
        "g3-navbar flex min-h-0 flex-1 flex-col overflow-hidden bg-white g3-navbar-ios"
    );
}

#[test]
fn lines_take_their_orientation_class() {
    assert_eq!(line_class(g3_ui::LineOrientation::Horizontal), "g3-line g3-line-h");
    assert_eq!(line_class(g3_ui::LineOrientation::Vertical), "g3-line g3-line-v");
}
