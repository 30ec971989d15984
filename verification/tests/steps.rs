use g3_ui::avatar::{initial_letters, join_pieces};
use g3_ui::calendar::{calendar_pick, calendar_years, month_step};
use g3_ui::date_picker::{picker_choice_on_open, picker_finish, picker_start, PickerAction};
use g3_ui::list::without_row;
use g3_ui::demo_app::{restore_rows, take_row};
use g3_ui::select::{chosen_text_index, initial_value, select_pick, SelectOption};
use g3_ui::CalendarDate;

fn date(year: i32, month: u8, day: u8) -> CalendarDate {
    CalendarDate::new(year, month, day).unwrap()
}

#[test]
fn initials_join_the_uppercase_pieces() {
    assert_eq!(initial_letters("  émile zola  jr"), vec!['é', 'z']);
    assert_eq!(initial_letters(""), Vec::<char>::new());
    assert_eq!(join_pieces(&vec![vec!['É'], vec!['S', 'S']]), "ÉSS");
    assert_eq!(join_pieces(&vec![]), "");
}

#[test]
fn calendar_days_are_picked_within_bounds() {
    let day = date(2026, 5, 10);
    assert_eq!(calendar_pick(day, None, None, false), Some(day));
    assert_eq!(calendar_pick(day, None, None, true), None);
    assert_eq!(calendar_pick(day, Some(date(2026, 5, 11)), None, false), None);
    assert_eq!(calendar_pick(day, None, Some(date(2026, 5, 9)), false), None);
    assert_eq!(calendar_pick(day, Some(day), Some(day), false), Some(day));
}

#[test]
fn the_year_list_spans_the_bounds_or_a_default_range() {
    let today = date(2026, 5, 10);
    assert_eq!(calendar_years(today, None, None), (1926, 2076));
    assert_eq!(calendar_years(today, Some(date(2030, 1, 1)), Some(date(2020, 1, 1))), (2030, 2020));
}

#[test]
fn the_header_steps_month_and_focus_together() {
    let month = date(2026, 3, 1);
    let focus = date(2026, 3, 31);
    assert_eq!(month_step(month, focus, false, None, None), (date(2026, 2, 1), date(2026, 2, 28)));
    assert_eq!(month_step(month, focus, true, None, None), (date(2026, 4, 1), date(2026, 4, 30)));
    assert_eq!(
        month_step(month, focus, true, None, Some(date(2026, 4, 15))),
        (date(2026, 4, 1), date(2026, 4, 15))
    );
}

#[test]
fn pickers_commit_on_confirm_and_keep_on_cancel() {
    let old = Some(date(2026, 1, 1));
    let chosen = date(2026, 2, 2);
    let done = picker_finish(old, Some(chosen), PickerAction::Confirm);
    assert_eq!((done.value, done.open, done.reported), (Some(chosen), false, Some(chosen)));
    let idle = picker_finish(old, None, PickerAction::Confirm);
    assert_eq!((idle.value, idle.open, idle.reported), (old, true, None));
    let gone = picker_finish(old, Some(chosen), PickerAction::Cancel);
    assert_eq!((gone.value, gone.open, gone.reported), (old, false, None));
}

#[test]
fn selects_of_text_find_and_pick_options() {
    let options = vec![
        SelectOption::new("Driver".to_string(), "Driver"),
        SelectOption::new("Iron".to_string(), "Iron").disabled(),
        SelectOption::new("Putter".to_string(), "Putter"),
    ];
    assert_eq!(chosen_text_index(&options, "Putter"), Some(2));
    assert_eq!(chosen_text_index(&options, "Wedge"), None);
    assert_eq!(initial_value(None, &options), Some("Driver".to_string()));
    assert_eq!(initial_value(Some("Wood".to_string()), &options), Some("Wood".to_string()));
    assert_eq!(initial_value(None, &[] as &[SelectOption<String>]), None);
    assert_eq!(select_pick(&options, 2), Some("Putter".to_string()));
    assert_eq!(select_pick(&options, 1), None);
}

#[test]
fn activity_rows_leave_and_come_back_in_order() {
    let (rows, gone) = take_row(&vec![0, 1, 2], &vec![], 1);
    assert_eq!((rows.clone(), gone.clone()), (vec![0, 2], vec![1]));
    let (rows, gone) = take_row(&rows, &gone, 0);
    assert_eq!((rows.clone(), gone.clone()), (vec![2], vec![1, 0]));
    let (same_rows, same_gone) = take_row(&rows, &gone, 7);
    assert_eq!((same_rows, same_gone), (vec![2], vec![1, 0]));
    assert_eq!(restore_rows(&rows, &gone), vec![0, 1, 2]);
    assert_eq!(restore_rows(&vec![], &vec![]), Vec::<usize>::new());
}

#[test]
fn options_come_from_text() {
    let from_str = SelectOption::from("Iron");
    assert_eq!((from_str.value.as_str(), from_str.label.as_str()), ("Iron", "Iron"));
    assert!(from_str.description.is_none() && !from_str.disabled);
    let from_string = SelectOption::from("Wedge".to_string());
    assert_eq!((from_string.value.as_str(), from_string.label.as_str()), ("Wedge", "Wedge"));
}

#[test]
fn a_refused_start_leaves_nothing_to_confirm() {
    let today = date(2026, 5, 10);
    let start = picker_start(None, today, Some(date(2026, 6, 1)), None);
    assert_eq!(picker_choice_on_open(start, false), Some(start));
    assert_eq!(picker_choice_on_open(start, true), None);
    let kept = picker_finish(None, picker_choice_on_open(start, true), PickerAction::Confirm);
    assert_eq!((kept.value, kept.open, kept.reported), (None, true, None));
    let done = picker_finish(None, picker_choice_on_open(start, false), PickerAction::Confirm);
    assert_eq!((done.value, done.reported), (Some(date(2026, 6, 1)), Some(date(2026, 6, 1))));
}

#[test]
fn deleting_a_row_removes_it_and_keeps_the_order() {
    let rows = vec!["Alpha", "Bravo", "Charlie", "Bravo"];
    assert_eq!(without_row(&rows, "Bravo"), vec!["Alpha", "Charlie"]);
    assert_eq!(without_row(&rows, "Zulu"), rows);
    assert_eq!(without_row(&vec![], "Alpha"), Vec::<&str>::new());
}
