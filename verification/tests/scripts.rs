use g3_ui::overlay::{focus_step, FocusStep};
use g3_ui::popover::popup_kind;
use g3_ui::scripts::{
    focus_script, gesture_command_script, popover_trigger_script, loads_more, observer_script, page_lock_script, reobserve_script,
    replace_all, restore_value_script, roving_script, script_for_element,
};

#[test]
fn replace_all_replaces_every_occurrence() {
    assert_eq!(replace_all("aXbXc", "X", "--"), "a--b--c");
    assert_eq!(replace_all("aXbXc", "X", "--"), "aXbXc".replace("X", "--"));
}

#[test]
fn replace_all_matches_from_the_left_without_overlap() {
    assert_eq!(replace_all("aaa", "aa", "b"), "ba");
    assert_eq!(replace_all("aaaa", "aa", "b"), "bb");
    assert_eq!(replace_all("aaa", "aa", "b"), "aaa".replace("aa", "b"));
}

#[test]
fn replace_all_with_an_empty_pattern_keeps_the_text() {
    assert_eq!(replace_all("abc", "", "x"), "abc");
    assert_eq!(replace_all("", "a", "x"), "");
}

#[test]
fn replace_all_without_the_pattern_keeps_the_text() {
    assert_eq!(replace_all("hello", "__ID__", "x"), "hello");
}

#[test]
fn element_scripts_take_the_id_as_a_literal() {
    assert_eq!(
        script_for_element("document.getElementById(__ID__); f(__ID__)", "menu"),
        "document.getElementById(\"menu\"); f(\"menu\")"
    );
    assert_eq!(
        script_for_element("x(__ID__)", "a\"b<"),
        "x(\"a\\\"b\\u003c\")"
    );
}

#[test]
fn roving_scripts_fill_all_three_placeholders() {
    let script = roving_script(
        "r(__ID__, __SELECTOR__, __VERTICAL__)",
        "list",
        "[role=option]",
        true,
    );
    assert_eq!(script, "r(\"list\", \"[role=option]\", true)");
    let script = roving_script("r(__VERTICAL__)", "list", "li", false);
    assert_eq!(script, "r(false)");
}

#[test]
fn gesture_commands_name_the_script_and_the_element() {
    assert_eq!(
        gesture_command_script("g3-clock", "face", "reset"),
        "window[Symbol.for(\"g3-clock\")]?.command(\"face\", \"reset\");"
    );
}

#[test]
fn restoring_a_value_writes_it_back_as_a_literal() {
    assert_eq!(
        restore_value_script("name", "Ann"),
        "const el = document.getElementById(\"name\"); if (el) el.value = \"Ann\";"
    );
    assert_eq!(
        restore_value_script("n", "a\\b"),
        "const el = document.getElementById(\"n\"); if (el) el.value = \"a\\\\b\";"
    );
}

#[test]
fn page_lock_scripts_toggle_the_class() {
    assert_eq!(
        page_lock_script(true),
        "document.body && document.body.classList.toggle('g3-overlay-scroll-locked', true);"
    );
    assert_eq!(
        page_lock_script(false),
        "document.body && document.body.classList.toggle('g3-overlay-scroll-locked', false);"
    );
}

#[test]
fn observers_take_the_sentinel_and_the_margin() {
    assert_eq!(
        observer_script("watch(__ID__, '__MARGIN__px')", "end", 200),
        "watch(\"end\", '200px')"
    );
    assert_eq!(observer_script("m=__MARGIN__", "x", 0), "m=0");
}

#[test]
fn observers_look_again_after_a_page_loads() {
    assert_eq!(
        reobserve_script("end"),
        "const s = document.getElementById(\"end\"); if (s && s.g3Observer) { s.g3Observer.unobserve(s); s.g3Observer.observe(s); }"
    );
}

#[test]
fn more_loads_only_when_idle_and_incomplete() {
    assert!(loads_more(false, false));
    assert!(!loads_more(true, false));
    assert!(!loads_more(false, true));
    assert!(!loads_more(true, true));
}

#[test]
fn focus_scripts_fill_the_id_trap_and_roving_selector() {
    assert_eq!(
        focus_script("f(__ID__, __TRAP__, __ROVING__)", "menu", true, Some("[role=option]")),
        "f(\"menu\", true, \"[role=option]\")"
    );
    assert_eq!(
        focus_script("f(__ID__, __TRAP__, __ROVING__)", "dlg", false, None),
        "f(\"dlg\", false, null)"
    );
}

#[test]
fn popover_triggers_learn_their_panel() {
    assert_eq!(
        popover_trigger_script("t(__ANCHOR__, __POPUP__, __OPEN__, __PANEL__)", "p", "menu", true),
        "t(\"p-anchor\", \"menu\", \"true\", \"p\")"
    );
    assert_eq!(popup_kind("menu"), "menu");
    assert_eq!(popup_kind("listbox"), "listbox");
    assert_eq!(popup_kind("dialog"), "dialog");
    assert_eq!(popup_kind("group"), "dialog");
}

#[test]
fn one_focus_script_runs_while_open() {
    assert_eq!(focus_step(true, false), FocusStep::Start);
    assert_eq!(focus_step(false, true), FocusStep::Close);
    assert_eq!(focus_step(true, true), FocusStep::Nothing);
    assert_eq!(focus_step(false, false), FocusStep::Nothing);
}
