use g3_ui::accordion::{toggled, toggled_strings, toggled_text};
use g3_ui::alert::{prompt_answer, question_buttons};
use g3_ui::avatar::initials_of;
use g3_ui::calendar::{long_date, month_cells, month_year, name_at, short_date};
use g3_ui::clock::{marks, position, DialMode, INNER_RADIUS, OUTER_RADIUS};
use g3_ui::demo_app::{score_color, Screen};
use g3_ui::field::{described_by, is_invalid, within_length_limit};
use g3_ui::layout::grid_count_template;
use g3_ui::overlay::{adjust_lock, js_string};
use g3_ui::overlay_host::OverlayQueue;
use g3_ui::playground::{demo_slug, selected_demo, PlaygroundTheme, PlaygroundViewport};
use g3_ui::transition_showcase::{rating_rows, screen_title, ShowcaseScreen};
use g3_ui::{
    ActionSheetButton, AlertButton, AlertButtonRole, AlertResult, ButtonType, CalendarDate,
    Color, ComponentMode, ControlLabelPlacement, InputType, ListLines, PickerStyle,
    PopoverPlacement, ReorderLayout, ShellSize, Space, StackAlign, StackJustify,
};

#[test]
fn single_mode_keeps_one_item_open() {
    assert_eq!(toggled(&["a"], &"b", false), vec!["b"]);
    assert_eq!(toggled(&["a"], &"a", false), Vec::<&str>::new());
}

#[test]
fn multiple_mode_adds_and_removes() {
    assert_eq!(toggled(&["a"], &"b", true), vec!["a", "b"]);
    assert_eq!(toggled(&["a", "b"], &"a", true), vec!["b"]);
}

#[test]
fn text_sections_toggle_as_the_generic_form_does() {
    assert_eq!(toggled_text(&["a"], "b", false), vec!["b"]);
    assert_eq!(toggled_text(&["a"], "a", false), Vec::<&str>::new());
    assert_eq!(toggled_text(&["a"], "b", true), vec!["a", "b"]);
    assert_eq!(toggled_text(&["a", "b"], "a", true), vec!["b"]);
    assert_eq!(toggled_text(&["a", "b", "a"], "a", true), vec!["b"]);
}

#[test]
fn toggling_removes_every_copy() {
    assert_eq!(toggled(&[1u32, 2, 1], &1, true), vec![2]);
    assert_eq!(toggled(&[] as &[u32], &7, false), vec![7]);
    assert_eq!(toggled(&["a", "b"], &"a", true), vec!["b"]);
    let titles = vec!["Tees".to_string(), "Greens".to_string()];
    assert_eq!(toggled(&titles, &"Tees".to_string(), true), vec!["Greens".to_string()]);
    assert_eq!(
        toggled_strings(&titles, &"Rules".to_string(), true),
        vec!["Tees".to_string(), "Greens".to_string(), "Rules".to_string()]
    );
    assert_eq!(toggled_strings(&titles, &"Greens".to_string(), false), vec!["Tees".to_string()]);
    assert_eq!(toggled_strings(&titles, &"Rules".to_string(), false), vec!["Rules".to_string()]);
}

#[test]
fn initials_come_from_the_first_two_words() {
    assert_eq!(initials_of("alex morgan jones"), "AM");
    assert_eq!(initials_of("Émile"), "É");
    assert_eq!(initials_of(""), "");
}

#[test]
fn initials_skip_any_white_space_and_widen_when_uppercased() {
    assert_eq!(initials_of("  \t grace\u{3000}park  "), "GP");
    assert_eq!(initials_of("ßen"), "SS");
    assert_eq!(initials_of("   "), "");
}

#[test]
fn month_cells_start_on_the_first_weekday() {
    let september = CalendarDate::new(2026, 9, 1).unwrap(); // a Tuesday
    let sunday_first = month_cells(september, 0);
    assert_eq!(
        sunday_first
            .iter()
            .take_while(|cell| cell.is_none())
            .count(),
        2
    );
    assert_eq!(sunday_first.len(), 2 + 30);
    let monday_first = month_cells(september, 1);
    assert_eq!(
        monday_first
            .iter()
            .take_while(|cell| cell.is_none())
            .count(),
        1
    );
}

#[test]
fn every_cell_sits_under_its_weekday() {
    let february = CalendarDate::new(2024, 2, 10).unwrap();
    for first_weekday in 0..9u8 {
        let cells = month_cells(february, first_weekday);
        assert_eq!(cells.iter().filter(|cell| cell.is_some()).count(), 29);
        for (index, cell) in cells.iter().enumerate() {
            if let Some(day) = cell {
                assert_eq!(
                    usize::from(day.weekday()),
                    (index + usize::from(first_weekday)) % 7
                );
            }
        }
    }
}

fn english(names: &[&str]) -> Vec<String> {
    names.iter().map(|name| name.to_string()).collect()
}

#[test]
fn dates_read_in_full() {
    let weekdays = english(&[
        "Sunday", "Monday", "Tuesday", "Wednesday", "Thursday", "Friday", "Saturday",
    ]);
    let months = english(&[
        "January", "February", "March", "April", "May", "June", "July", "August", "September",
        "October", "November", "December",
    ]);
    let months_short = english(&[
        "Jan", "Feb", "Mar", "Apr", "May", "Jun", "Jul", "Aug", "Sep", "Oct", "Nov", "Dec",
    ]);
    let date = CalendarDate::new(2026, 9, 19).unwrap();
    assert_eq!(long_date(&weekdays, &months, date), "Saturday, September 19, 2026");
    assert_eq!(short_date(&months_short, date), "Sep 19, 2026");
    assert_eq!(month_year(&months, date), "September 2026");
}

#[test]
fn short_name_lists_fall_back_to_numbers() {
    assert_eq!(name_at(&english(&["Jan"]), 0), "Jan");
    assert_eq!(name_at(&english(&["Jan"]), 8), "9");
    let date = CalendarDate::new(-44, 3, 15).unwrap();
    assert_eq!(month_year(&[], date), "3 -44");
}

#[test]
fn a_24_hour_dial_puts_the_afternoon_on_its_inner_ring() {
    assert_eq!(position(DialMode::Hours24, 3), (90, OUTER_RADIUS));
    assert_eq!(position(DialMode::Hours24, 15), (90, INNER_RADIUS));
    assert_eq!(position(DialMode::Hours24, 0), (0, INNER_RADIUS));
    assert_eq!(position(DialMode::Minutes, 7), (42, OUTER_RADIUS));
}

#[test]
fn marks_label_every_hour_and_every_five_minutes() {
    assert_eq!(marks(DialMode::Minutes).len(), 12);
    assert_eq!(marks(DialMode::Hours24).len(), 24);
}

#[test]
fn marks_read_as_a_clock_face() {
    let hours = marks(DialMode::Hours24);
    assert_eq!(hours[0], (1, "1".to_string()));
    assert_eq!(hours[12], (13, "13".to_string()));
    assert_eq!(hours[23], (0, "00".to_string()));
    let minutes = marks(DialMode::Minutes);
    assert_eq!(minutes[1], (5, "05".to_string()));
    assert_eq!(minutes[11], (55, "55".to_string()));
    assert_eq!(marks(DialMode::Hours12)[11], (12, "12".to_string()));
    assert_eq!(DialMode::Hours24.as_str(), "hours24");
}

#[test]
fn field_descriptions_name_the_texts_shown() {
    let some = |text: &str| Some(text.to_string());
    assert_eq!(described_by("f", &some("help"), &some("bad")), some("f-helper f-error"));
    assert_eq!(described_by("f", &some("help"), &some("")), some("f-helper"));
    assert_eq!(described_by("f", &None, &some("bad")), some("f-error"));
    assert_eq!(described_by("f", &some(""), &None), None);
    assert!(is_invalid(&some("bad")));
    assert!(!is_invalid(&some("")));
    assert!(within_length_limit("héllo", Some(5)));
    assert!(!within_length_limit("héllo!", Some(5)));
    assert!(within_length_limit("anything", None));
    assert_eq!(InputType::DateTime.as_str(), "datetime-local");
    assert_eq!(InputType::default(), InputType::Text);
}

#[test]
fn scripts_receive_inert_string_literals() {
    assert_eq!(js_string("plain"), "\"plain\"");
    assert_eq!(js_string("a\"b\\c"), "\"a\\\"b\\\\c\"");
    assert_eq!(js_string("</script>"), "\"\\u003c/script>\"");
    assert_eq!(js_string("line\nbreak\u{2028}"), "\"line\\u000abreak\\u2028\"");
}

#[test]
fn the_scroll_lock_touches_the_page_only_at_zero() {
    assert_eq!(adjust_lock(0, true), (1, Some(true)));
    assert_eq!(adjust_lock(1, true), (2, None));
    assert_eq!(adjust_lock(2, false), (1, None));
    assert_eq!(adjust_lock(1, false), (0, Some(false)));
    assert_eq!(adjust_lock(0, false), (0, Some(false)));
}

#[test]
fn queues_show_first_come_first_served_and_replace_on_request() {
    let mut queue = OverlayQueue::new();
    let first = queue.show("saved", false);
    let second = queue.show("synced", false);
    assert_eq!((first, second), (1, 2));
    assert_eq!(queue.first().map(|entry| entry.options), Some("saved"));
    queue.dismiss(first);
    assert_eq!(queue.first().map(|entry| entry.id), Some(second));
    let third = queue.show("again", true);
    assert_eq!(third, 3);
    assert_eq!(queue.len(), 1);
    assert_eq!(queue.first().map(|entry| entry.options), Some("again"));
    queue.dismiss(third);
    assert!(queue.first().is_none());
}

#[test]
fn alerts_confirm_unless_cancelled() {
    let buttons = question_buttons("Cancel", "OK");
    let pressed = |button| AlertResult { button, value: Some("text".to_string()) };
    assert!(pressed(Some(1)).confirmed(&buttons));
    assert!(!pressed(Some(0)).confirmed(&buttons));
    assert!(!pressed(Some(5)).confirmed(&buttons));
    assert!(!pressed(None).confirmed(&buttons));
    assert_eq!(prompt_answer(pressed(Some(1)), &buttons), Some("text".to_string()));
    assert_eq!(prompt_answer(pressed(None), &buttons), None);
    assert_eq!(AlertButton::destructive("Leave").role, AlertButtonRole::Destructive);
    let sheet = ActionSheetButton::destructive("Delete").disabled();
    assert_eq!(sheet.color, Some(Color::Danger));
    assert!(sheet.disabled);
    assert_eq!(ActionSheetButton::new("Share").color, None);
}

#[test]
fn viewport_picker_exposes_mobile_and_desktop_shell_widths() {
    assert_eq!(PlaygroundViewport::Mobile.as_str(), "mobile");
    assert_eq!(PlaygroundViewport::Desktop.as_str(), "desktop");
}

#[test]
fn component_names_have_stable_shareable_slugs() {
    assert_eq!(demo_slug("DemoApp"), "demoapp");
    assert_eq!(demo_slug("SegmentGroup"), "segmentgroup");
    assert_eq!(demo_slug("Confirm Modal"), "confirm-modal");
}

#[test]
fn slugs_pick_the_demo_asked_for() {
    assert_eq!(demo_slug("  Date & Time -- Picker!! "), "date-time-picker");
    let names = ["Accordion", "Confirm Modal", "Date Picker"];
    assert_eq!(selected_demo(&names, Some("confirm-modal")), 1);
    assert_eq!(selected_demo(&names, Some("nothing")), 0);
    assert_eq!(selected_demo(&names, None), 0);
    assert_eq!(PlaygroundTheme::all()[2].label(), "Night");
}

#[test]
fn names_the_stylesheet_reads() {
    assert_eq!(Color::default().as_str(), "accent");
    assert_eq!(Color::Danger.as_str(), "danger");
    assert_eq!(Space::default().as_str(), "md");
    assert_eq!(Space::Zero.as_str(), "none");
    assert_eq!(StackAlign::Baseline.as_str(), "baseline");
    assert_eq!(StackJustify::default().as_str(), "start");
    assert_eq!(ListLines::default().as_str(), "inset");
    assert_eq!(ListLines::Hidden.as_str(), "none");
    assert_eq!(PopoverPlacement::TopEnd.as_str(), "top-end");
    assert_eq!(ButtonType::Submit.as_str(), "submit");
    assert_eq!(ReorderLayout::Grid.as_str(), "grid");
    assert_eq!(ControlLabelPlacement::End.class(), "");
    assert_eq!(ControlLabelPlacement::Fixed.class(), "g3-control-label-fixed");
    assert_eq!(grid_count_template(3), "repeat(3, minmax(0, 1fr))");
    assert_eq!(grid_count_template(0), "repeat(1, minmax(0, 1fr))");
    assert!(ShellSize::Wide.is_wide() && !ShellSize::Wide.is_compact());
    assert!(ShellSize::default().is_compact());
    assert_eq!(PickerStyle::Auto.resolve(ComponentMode::Ios), PickerStyle::Wheels);
    assert_eq!(PickerStyle::Auto.resolve(ComponentMode::Md), PickerStyle::Dialog);
    assert_eq!(PickerStyle::Popover.resolve(ComponentMode::Md), PickerStyle::Popover);
    assert_eq!(score_color(3, 4), Some("success"));
    assert_eq!(score_color(4, 4), None);
    assert_eq!(score_color(6, 4), Some("warning"));
    assert_eq!(Screen::Book.title(), "Book a tee time");
    assert_eq!(screen_title(ShowcaseScreen::Ratings(2)), "Fairway");
    assert_eq!(rating_rows(2)[2], ("Ocean Links", "E"));
    assert_eq!(g3_ui::body_styles::catalog()[0], ("BODY_BASE", g3_ui::body_styles::BODY_BASE));
    assert_eq!(g3_ui::fab_styles::catalog().len(), 11);
    assert_eq!(g3_ui::info_button_styles::catalog(), vec![
        ("base", "g3-info-btn"),
        ("ios", "g3-info-btn-ios"),
        ("md", "g3-info-btn-md"),
    ]);
    assert_eq!(g3_ui::line_styles::catalog()[2], ("LINE_V", "g3-line-v"));
    assert_eq!(g3_ui::navbar_styles::catalog()[1], ("NAVBAR_IOS", "g3-navbar-ios"));
}
