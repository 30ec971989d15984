//! Filling the placeholders of the scripts that components run in the
//! page: each occurrence of a `__NAME__` placeholder is replaced by a value,
//! which for text is a script-safe string literal.
use crate::overlay::{js_literal, js_string};
use crate::text::{chars_of, decimal, decimal_chars, push_char, push_chars, push_str};
use vstd::prelude::*;

verus! {

/// `s` with every occurrence of `pattern` replaced by `with`, matching from
/// the left without overlaps, as `str::replace` does for a pattern that is
/// not empty. An empty pattern leaves `s` as it is, where `str::replace`
/// would put `with` before, between and after all characters; placeholders
/// are never empty.
pub open spec fn replaced(s: Seq<char>, pattern: Seq<char>, with: Seq<char>) -> Seq<char>
    decreases s.len(),
{
    if pattern.len() == 0 || s.len() == 0 {
        s
    } else if s.len() >= pattern.len() && s.subrange(0, pattern.len() as int) == pattern {
        with + replaced(s.subrange(pattern.len() as int, s.len() as int), pattern, with)
    } else {
        seq![s[0]] + replaced(s.drop_first(), pattern, with)
    }
}

/// Whether `pattern` occurs in `text` at `at`.
fn matches_at(text: &Vec<char>, at: usize, pattern: &Vec<char>) -> (found: bool)
    requires
        at <= text.len(),
    ensures
        found == (text.len() - at >= pattern.len() && text@.subrange(
            at as int,
            at + pattern.len(),
        ) == pattern@),
{
    if text.len() - at < pattern.len() {
        return false;
    }
    let mut k: usize = 0;
    while k < pattern.len()
        invariant
            k <= pattern.len(),
            at + pattern.len() <= text.len(),
            forall|j: int| 0 <= j < k ==> text@[at + j] == pattern@[j],
        decreases pattern.len() - k,
    {
        if text[at + k] != pattern[k] {
            proof {
                assert(text@.subrange(at as int, at + pattern.len())[k as int] != pattern@[k as int]);
            }
            return false;
        }
        k = k + 1;
    }
    proof {
        assert(text@.subrange(at as int, at + pattern.len()) =~= pattern@);
    }
    true
}

/// `text` with every occurrence of `pattern` replaced by `with`.
pub fn replace_all(text: &str, pattern: &str, with: &str) -> (result: String)
    ensures
        result@ == replaced(text@, pattern@, with@),
{
    let chars = chars_of(text);
    let pat = chars_of(pattern);
    let mut result = String::new();
    if pat.len() == 0 {
        push_str(&mut result, text);
        return result;
    }
    let mut i: usize = 0;
    proof {
        assert(chars@.subrange(0, chars.len() as int) =~= chars@);
    }
    while i < chars.len()
        invariant
            i <= chars.len(),
            chars@ == text@,
            pat@ == pattern@,
            pat.len() > 0,
            replaced(text@, pattern@, with@) == result@ + replaced(
                chars@.subrange(i as int, chars.len() as int),
                pattern@,
                with@,
            ),
        decreases chars.len() - i,
    {
        let ghost rest = chars@.subrange(i as int, chars.len() as int);
        if matches_at(&chars, i, &pat) {
            proof {
                assert(rest.subrange(0, pat.len() as int) =~= chars@.subrange(i as int, i + pat.len()));
                assert(rest.subrange(pat.len() as int, rest.len() as int) =~= chars@.subrange(
                    i + pat.len(),
                    chars.len() as int,
                ));
            }
            push_str(&mut result, with);
            i = i + pat.len();
        } else {
            proof {
                if rest.len() >= pat.len() {
                    assert(rest.subrange(0, pat.len() as int) =~= chars@.subrange(
                        i as int,
                        i + pat.len(),
                    ));
                }
                assert(rest.drop_first() =~= chars@.subrange(i + 1, chars.len() as int));
            }
            push_char(&mut result, chars[i]);
            i = i + 1;
        }
    }
    proof {
        assert(chars@.subrange(chars.len() as int, chars.len() as int) =~= Seq::<char>::empty());
        assert(result@ + Seq::<char>::empty() =~= result@);
    }
    result
}

/// `template` with `__ID__` replaced by the literal of the element id `id`,
/// as every component's script takes the element it works on.
pub fn script_for_element(template: &str, id: &str) -> (script: String)
    ensures
        script@ == replaced(template@, "__ID__"@, js_literal(id@)),
{
    let literal = js_string(id);
    replace_all(template, "__ID__", literal.as_str())
}

/// The roving-focus script for the element `id`: `__ID__`, `__SELECTOR__`
/// and `__VERTICAL__` replaced in turn by the id's literal, the selector's
/// literal, and `true` or `false`.
pub fn roving_script(template: &str, id: &str, selector: &str, vertical: bool) -> (script: String)
    ensures
        script@ == replaced(
            replaced(
                replaced(template@, "__ID__"@, js_literal(id@)),
                "__SELECTOR__"@,
                js_literal(selector@),
            ),
            "__VERTICAL__"@,
            if vertical { "true"@ } else { "false"@ },
        ),
{
    let with_id = script_for_element(template, id);
    let selector_literal = js_string(selector);
    let with_selector = replace_all(with_id.as_str(), "__SELECTOR__", selector_literal.as_str());
    replace_all(with_selector.as_str(), "__VERTICAL__", if vertical {
        "true"
    } else {
        "false"
    })
}

/// The script that calls `command(id, what)` on the gesture script
/// registered under `name`.
pub open spec fn command_script_text(name: Seq<char>, id: Seq<char>, what: Seq<char>) -> Seq<char> {
    "window[Symbol.for("@ + js_literal(name) + ")]?.command("@ + js_literal(id) + ", "@
        + js_literal(what) + ");"@
}

/// The script that sends `what` to the element `id` through the `command`
/// of the gesture script registered under `name`.
pub fn gesture_command_script(name: &str, id: &str, what: &str) -> (script: String)
    ensures
        script@ == command_script_text(name@, id@, what@),
{
    let mut script = String::new();
    push_str(&mut script, "window[Symbol.for(");
    push_str(&mut script, js_string(name).as_str());
    push_str(&mut script, ")]?.command(");
    push_str(&mut script, js_string(id).as_str());
    push_str(&mut script, ", ");
    push_str(&mut script, js_string(what).as_str());
    push_str(&mut script, ");");
    proof {
        assert(script@ =~= command_script_text(name@, id@, what@));
    }
    script
}

/// The script that puts the element `id`'s displayed value back to `value`.
pub open spec fn restore_script_text(id: Seq<char>, value: Seq<char>) -> Seq<char> {
    "const el = document.getElementById("@ + js_literal(id) + "); if (el) el.value = "@
        + js_literal(value) + ";"@
}

/// The script that puts a field's displayed value back to `value`, needed
/// after refusing a keystroke.
pub fn restore_value_script(id: &str, value: &str) -> (script: String)
    ensures
        script@ == restore_script_text(id@, value@),
{
    let mut script = String::new();
    push_str(&mut script, "const el = document.getElementById(");
    push_str(&mut script, js_string(id).as_str());
    push_str(&mut script, "); if (el) el.value = ");
    push_str(&mut script, js_string(value).as_str());
    push_str(&mut script, ";");
    proof {
        assert(script@ =~= restore_script_text(id@, value@));
    }
    script
}

/// The script that locks or unlocks page scrolling.
pub open spec fn page_lock_script_text(locked: bool) -> Seq<char> {
    "document.body && document.body.classList.toggle('g3-overlay-scroll-locked', "@ + (if locked {
        "true"@
    } else {
        "false"@
    }) + ");"@
}

/// The script that locks (`true`) or unlocks the page's scrolling.
pub fn page_lock_script(locked: bool) -> (script: String)
    ensures
        script@ == page_lock_script_text(locked),
{
    let mut script = String::new();
    push_str(&mut script, "document.body && document.body.classList.toggle('g3-overlay-scroll-locked', ");
    push_str(&mut script, if locked {
        "true"
    } else {
        "false"
    });
    push_str(&mut script, ");");
    proof {
        assert(script@ =~= page_lock_script_text(locked));
    }
    script
}

/// Text without the pattern passes through unchanged.
pub proof fn lemma_replaced_without_pattern(s: Seq<char>, pattern: Seq<char>, with: Seq<char>)
    requires
        pattern.len() > 0,
        forall|i: int| 0 <= i < s.len() ==> #[trigger] s[i] != pattern[0],
    ensures
        replaced(s, pattern, with) == s,
    decreases s.len(),
{
    if s.len() > 0 {
        if s.len() >= pattern.len() {
            assert(s.subrange(0, pattern.len() as int)[0] == s[0]);
        }
        assert forall|i: int| 0 <= i < s.drop_first().len() implies #[trigger] s.drop_first()[i]
            != pattern[0] by {
            assert(s.drop_first()[i] == s[i + 1]);
        }
        lemma_replaced_without_pattern(s.drop_first(), pattern, with);
        assert(seq![s[0]] + s.drop_first() =~= s);
    }
}

/// The script that watches the end of an infinite list: `__ID__` replaced
/// by the literal of the sentinel's id, then `__MARGIN__` by the margin in
/// pixels, in decimal.
pub fn observer_script(template: &str, id: &str, margin: u32) -> (script: String)
    ensures
        script@ == replaced(
            replaced(template@, "__ID__"@, js_literal(id@)),
            "__MARGIN__"@,
            decimal(margin as nat),
        ),
{
    let with_id = script_for_element(template, id);
    let mut number = String::new();
    push_chars(&mut number, &decimal_chars(margin as u64));
    proof {
        assert(number@ =~= decimal(margin as nat));
    }
    replace_all(with_id.as_str(), "__MARGIN__", number.as_str())
}

/// The script that makes the observer of the sentinel `id` look again.
pub open spec fn reobserve_script_text(id: Seq<char>) -> Seq<char> {
    "const s = document.getElementById("@ + js_literal(id)
        + "); if (s && s.g3Observer) { s.g3Observer.unobserve(s); s.g3Observer.observe(s); }"@
}

/// The script that makes an infinite list's observer report again, for an
/// end still in view after a page has loaded: an observer only reports
/// changes.
pub fn reobserve_script(id: &str) -> (script: String)
    ensures
        script@ == reobserve_script_text(id@),
{
    let mut script = String::new();
    push_str(&mut script, "const s = document.getElementById(");
    push_str(&mut script, js_string(id).as_str());
    push_str(
        &mut script,
        "); if (s && s.g3Observer) { s.g3Observer.unobserve(s); s.g3Observer.observe(s); }",
    );
    proof {
        assert(script@ =~= reobserve_script_text(id@));
    }
    script
}

/// Whether an infinite list asks for the next page when its end comes into
/// view: not while a page is loading, nor once everything has loaded.
pub fn loads_more(loading: bool, complete: bool) -> (load: bool)
    ensures
        load == (!loading && !complete),
{
    !(loading || complete)
}

/// The focus script of an overlay: `__ID__` replaced by the literal of the
/// overlay's id, `__TRAP__` by whether Tab is kept inside, and `__ROVING__`
/// by the literal of the selector whose elements the arrow keys move
/// between, or `null` for none.
pub fn focus_script(template: &str, id: &str, trap: bool, roving: Option<&str>) -> (script: String)
    ensures
        script@ == replaced(
            replaced(
                replaced(template@, "__ID__"@, js_literal(id@)),
                "__TRAP__"@,
                if trap { "true"@ } else { "false"@ },
            ),
            "__ROVING__"@,
            match roving {
                Some(selector) => js_literal(selector@),
                None => "null"@,
            },
        ),
{
    let with_id = script_for_element(template, id);
    let with_trap = replace_all(with_id.as_str(), "__TRAP__", if trap {
        "true"
    } else {
        "false"
    });
    match roving {
        Some(selector) => {
            let literal = js_string(selector);
            replace_all(with_trap.as_str(), "__ROVING__", literal.as_str())
        },
        None => replace_all(with_trap.as_str(), "__ROVING__", "null"),
    }
}

/// The script that tells a popover's trigger about the popover: the
/// anchor's id (the popover's id followed by `-anchor`), the kind of popup,
/// whether it is open, and the panel's id, each as a literal.
pub fn popover_trigger_script(template: &str, id: &str, popup: &str, open: bool) -> (script: String)
    ensures
        script@ == replaced(
            replaced(
                replaced(
                    replaced(template@, "__ANCHOR__"@, js_literal(id@ + "-anchor"@)),
                    "__POPUP__"@,
                    js_literal(popup@),
                ),
                "__OPEN__"@,
                js_literal(if open { "true"@ } else { "false"@ }),
            ),
            "__PANEL__"@,
            js_literal(id@),
        ),
{
    let mut anchor = String::new();
    push_str(&mut anchor, id);
    push_str(&mut anchor, "-anchor");
    let anchor_literal = js_string(anchor.as_str());
    let with_anchor = replace_all(template, "__ANCHOR__", anchor_literal.as_str());
    let popup_literal = js_string(popup);
    let with_popup = replace_all(with_anchor.as_str(), "__POPUP__", popup_literal.as_str());
    let open_literal = js_string(if open {
        "true"
    } else {
        "false"
    });
    let with_open = replace_all(with_popup.as_str(), "__OPEN__", open_literal.as_str());
    let panel_literal = js_string(id);
    replace_all(with_open.as_str(), "__PANEL__", panel_literal.as_str())
}

} // verus!
