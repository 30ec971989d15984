use g3_ui::pressable::{Destination, Target};
use g3_ui::calendar::{
    can_go_back, can_go_forward, is_out_of_range, key_target, year_target, CalendarKey,
};
use g3_ui::stepper::{can_decrease, can_increase, step_of, stepped_value};
use g3_ui::{
    AdaptiveNavCompact, AvatarSize, ButtonExpand, ButtonFill, ButtonSize, CalendarDate,
    CardVariant, Color, ComponentMode, DividerOrientation, FabHorizontal, FabListSide, FabSize,
    FabVertical, ImgFit, ItemDetail, LineOrientation, ListLines, ListVariant, ModalRole,
    ModalSize, NavItemGroup, SelectOption, SelectWidth, TooltipPlacement,
};

fn date(text: &str) -> CalendarDate {
    text.parse().unwrap()
}

#[test]
fn arrow_keys_move_by_days_and_weeks() {
    let d = date("2026-09-16"); // a Wednesday
    let go = |key, shift| key_target(d, key, shift, 0, None, None);
    assert_eq!(go(CalendarKey::Left, false), date("2026-09-15"));
    assert_eq!(go(CalendarKey::Right, false), date("2026-09-17"));
    assert_eq!(go(CalendarKey::Up, false), date("2026-09-09"));
    assert_eq!(go(CalendarKey::Down, false), date("2026-09-23"));
    assert_eq!(go(CalendarKey::Home, false), date("2026-09-13"));
    assert_eq!(go(CalendarKey::End, false), date("2026-09-19"));
    assert_eq!(go(CalendarKey::PageUp, false), date("2026-08-16"));
    assert_eq!(go(CalendarKey::PageDown, true), date("2027-09-16"));
    assert_eq!(key_target(d, CalendarKey::Home, false, 1, None, None), date("2026-09-14"));
    assert_eq!(key_target(d, CalendarKey::End, false, 1, None, None), date("2026-09-20"));
}

#[test]
fn focus_stays_within_the_bounds() {
    let min = date("2026-09-10");
    let max = date("2026-09-20");
    let d = date("2026-09-16");
    assert_eq!(key_target(d, CalendarKey::Down, false, 0, Some(min), Some(max)), max);
    assert_eq!(key_target(d, CalendarKey::PageUp, false, 0, Some(min), Some(max)), min);
    assert!(is_out_of_range(date("2026-09-09"), Some(min), Some(max)));
    assert!(!is_out_of_range(min, Some(min), Some(max)));
    assert!(is_out_of_range(date("2026-09-21"), None, Some(max)));
    assert!(!can_go_back(date("2026-09-01"), Some(min)));
    assert!(can_go_back(date("2026-10-01"), Some(min)));
    assert!(can_go_back(date("2026-10-01"), Some(date("2026-09-30"))));
    assert!(!can_go_back(date("2026-10-01"), Some(date("2026-10-01"))));
    assert!(!can_go_forward(date("2026-09-01"), Some(max)));
    assert!(can_go_forward(date("2026-08-01"), Some(max)));
    assert_eq!(year_target(date("2024-02-29"), 2025, None, None), date("2025-02-28"));
    assert_eq!(year_target(d, 2030, None, Some(max)), max);
}

#[test]
fn steppers_stop_at_their_bounds() {
    assert_eq!(step_of(None), 1);
    assert_eq!(step_of(Some(0)), 1);
    assert_eq!(step_of(Some(5)), 5);
    assert!(!can_decrease(0, Some(0), false));
    assert!(can_decrease(1, Some(0), false));
    assert!(!can_decrease(1, Some(0), true));
    assert!(can_increase(9, Some(10), false));
    assert!(!can_increase(10, Some(10), false));
    assert_eq!(stepped_value(9, 5, Some(0), Some(10)), 10);
    assert_eq!(stepped_value(3, -5, Some(0), None), 0);
    assert_eq!(stepped_value(i64::MAX - 1, 5, None, None), i64::MAX);
    assert_eq!(stepped_value(i64::MIN + 1, -5, None, None), i64::MIN);
}

#[test]
fn component_classes() {
    assert_eq!(ButtonFill::default().class(), "g3-btn-solid");
    assert_eq!(ButtonSize::default().class(), "g3-btn-md-size");
    assert_eq!(g3_ui::button::expand_class_of(Some(ButtonExpand::Full)), "g3-btn-expand-full");
    assert_eq!(g3_ui::button::expand_class_of(None), "");
    assert_eq!(g3_ui::button::color_class_of(Color::Accent), "");
    assert_eq!(g3_ui::button::color_class_of(Color::Warning), "g3-btn-warning");
    assert_eq!(AvatarSize::default().class(), "g3-avatar-md");
    assert_eq!(CardVariant::Filled.class(), "g3-card-filled");
    assert_eq!(DividerOrientation::Vertical.names(), ("g3-divider-v", "vertical"));
    assert!(!DividerOrientation::Vertical.shows_label());
    assert_eq!(FabVertical::default().class(), "g3-fab-vertical-bottom");
    assert_eq!(FabHorizontal::default().class(), "g3-fab-horizontal-end");
    assert_eq!(FabListSide::Start.class(), "g3-fab-list-start");
    assert!(FabSize::Small.is_small() && !FabSize::default().is_small());
    assert_eq!(ImgFit::Contain.class(), "g3-img-contain");
    assert_eq!(TooltipPlacement::default().as_str(), "top");
    assert_eq!(ModalRole::AlertDialog.as_str(), "alertdialog");
    assert_eq!(ModalSize::Wide.class(), "g3-modal-wide");
    assert_eq!(AdaptiveNavCompact::Hidden.class(), "g3-nav-adaptive g3-nav-compact-hidden");
    assert_eq!(NavItemGroup::Secondary.class(), "g3-nav-item-secondary");
    assert_eq!(LineOrientation::default().as_str(), "horizontal");
    assert_eq!(ListVariant::Flat.class(), "g3-list-grouped g3-list-flat");
    assert!(ItemDetail::Auto.shows_chevron(true, ComponentMode::Ios));
    assert!(!ItemDetail::Auto.shows_chevron(true, ComponentMode::Md));
    assert!(ItemDetail::Show.shows_chevron(false, ComponentMode::Md));
    assert_eq!(g3_ui::list::item_lines_class_of(Some(ListLines::Hidden)), "g3-item-lines-none");
    assert_eq!(SelectWidth::Fit.class(), "g3-select-width-fit");
    assert_eq!(SelectWidth::default().class(), "");
    let option = SelectOption::new(3u8, "Three").description("odd").disabled();
    assert_eq!(option.value, 3);
    assert_eq!(option.label, "Three");
    assert_eq!(option.description.as_deref(), Some("odd"));
    assert!(option.disabled);
    let options = [SelectOption::new(1u8, "One"), SelectOption::new(2u8, "Two")];
    assert_eq!(g3_ui::select::initial_value(None, &options), Some(1));
    assert_eq!(g3_ui::select::initial_value(Some(2), &options), Some(2));
    assert_eq!(g3_ui::select::initial_value::<u8>(None, &[]), None);
}

#[test]
fn a_route_wins_over_an_href() {
    let target = Target::from_props(Some("/a".to_string()), Destination::from(7u32), true);
    assert!(matches!(target, Target::Route { to: 7, new_tab: true }));
    assert!(target.is_link());
}

#[test]
fn an_href_alone_makes_a_plain_link() {
    let target: Target<u32> = Target::from_props(Some("/a".to_string()), Destination::default(), false);
    assert!(matches!(&target, Target::Href { href, new_tab: false } if href == "/a"));
    assert!(target.is_link());
}

#[test]
fn with_neither_the_component_stays_a_button() {
    let to: Destination<u32> = Destination::default();
    assert!(!to.is_some());
    assert_eq!(to.clone().target(), None);
    let target = Target::from_props(None, to, true);
    assert!(matches!(target, Target::Action));
    assert!(!target.is_link());
    let set = Destination::to(3u32);
    assert!(set.is_some());
    assert_eq!(set.target(), Some(3));
}
