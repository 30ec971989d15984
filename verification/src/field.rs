//! Text fields: input types, descriptions, and typing limits.
use crate::text::push_str;
use vstd::prelude::*;

verus! {

/// The kind of value an input takes. Each maps to an HTML input `type`, which picks the on-screen keyboard and any native picker.
#[derive(Clone, Copy, Debug, PartialEq, Eq, Structural, Hash)]
pub enum InputType {
    /// Free text.
    Text,
    /// An email address.
    Email,
    /// A password, masked.
    Password,
    /// A number. `min`, `max`, and `step` apply.
    Number,
    /// A phone number.
    Tel,
    /// A URL.
    Url,
    /// A search query.
    Search,
    /// A date (`YYYY-MM-DD`), with the platform date picker.
    Date,
    /// A time (`HH:MM`), with the platform time picker.
    Time,
    /// A local date and time (`YYYY-MM-DDTHH:MM`).
    DateTime,
    /// A month (`YYYY-MM`).
    Month,
}

impl Default for InputType {
    fn default() -> (value: Self)
        ensures
            value == InputType::Text,
    {
        InputType::Text
    }
}

/// The HTML input `type` of `value`.
pub open spec fn input_type_name(value: InputType) -> Seq<char> {
    match value {
        InputType::Text => "text"@,
        InputType::Email => "email"@,
        InputType::Password => "password"@,
        InputType::Number => "number"@,
        InputType::Tel => "tel"@,
        InputType::Url => "url"@,
        InputType::Search => "search"@,
        InputType::Date => "date"@,
        InputType::Time => "time"@,
        InputType::DateTime => "datetime-local"@,
        InputType::Month => "month"@,
    }
}

impl InputType {
    /// The HTML input `type`.
    pub fn as_str(self) -> (text: &'static str)
        ensures
            text@ == input_type_name(self),
    {
        match self {
            InputType::Text => "text",
            InputType::Email => "email",
            InputType::Password => "password",
            InputType::Number => "number",
            InputType::Tel => "tel",
            InputType::Url => "url",
            InputType::Search => "search",
            InputType::Date => "date",
            InputType::Time => "time",
            InputType::DateTime => "datetime-local",
            InputType::Month => "month",
        }
    }
}
/// Whether `text` is present and not empty.
pub open spec fn has_text(text: Option<String>) -> bool {
    text matches Some(t) && t@.len() > 0
}

/// The `aria-describedby` value for a field whose element id is `id`: the
/// ids of its helper and error texts, those that are shown, separated by a
/// space; `None` when neither is shown.
pub open spec fn description_ids(id: Seq<char>, helper: bool, error: bool) -> Option<Seq<char>> {
    if helper && error {
        Some(id + "-helper"@ + " "@ + id + "-error"@)
    } else if helper {
        Some(id + "-helper"@)
    } else if error {
        Some(id + "-error"@)
    } else {
        None
    }
}

/// Whether `text` is present and not empty.
fn shows(text: &Option<String>) -> (shown: bool)
    ensures
        shown == has_text(*text),
{
    match text {
        Some(t) => !t.as_str().is_empty(),
        None => false,
    }
}

/// The `aria-describedby` value for a field's helper and error text.
pub fn described_by(id: &str, helper: &Option<String>, error: &Option<String>) -> (ids: Option<
    String,
>)
    ensures
        match ids {
            Some(s) => description_ids(id@, has_text(*helper), has_text(*error)) == Some(s@),
            None => description_ids(id@, has_text(*helper), has_text(*error)) is None,
        },
{
    let helper_shown = shows(helper);
    let error_shown = shows(error);
    if !helper_shown && !error_shown {
        return None;
    }
    let mut ids = String::new();
    if helper_shown {
        push_str(&mut ids, id);
        push_str(&mut ids, "-helper");
    }
    if error_shown {
        if helper_shown {
            push_str(&mut ids, " ");
        }
        push_str(&mut ids, id);
        push_str(&mut ids, "-error");
    }
    proof {
        assert(Some(ids@) == description_ids(id@, helper_shown, error_shown));
    }
    Some(ids)
}

/// Whether a field shows an error: its error text is present and not empty.
pub fn is_invalid(error: &Option<String>) -> (invalid: bool)
    ensures
        invalid == has_text(*error),
{
    shows(error)
}

/// Whether `value` fits a `maxlength` of characters, when there is one.
/// Typing past it is refused; a value shorter than a minimum may still grow,
/// so minimums are left to validation.
pub fn within_length_limit(value: &str, maxlength: Option<usize>) -> (fits: bool)
    ensures
        fits == (match maxlength {
            Some(limit) => value@.len() <= limit,
            None => true,
        }),
{
    match maxlength {
        Some(limit) => value.unicode_len() <= limit,
        None => true,
    }
}

/// The debouncing of a field's `onchange`: each accepted keystroke starts
/// a new generation, and the timer it starts reports the text only if no
/// later keystroke came before it ran out.
pub struct Debounce {
    generation: u64,
}

impl Debounce {
    /// The generation of the latest keystroke, 0 before the first.
    pub closed spec fn generation(&self) -> u64 {
        self.generation
    }

    /// No keystroke yet.
    pub fn new() -> (debounce: Self)
        ensures
            debounce.generation() == 0,
    {
        Debounce { generation: 0 }
    }

    /// An accepted keystroke: it starts the next generation, which its
    /// timer carries.
    pub fn typed(&mut self) -> (ticket: u64)
        requires
            old(self).generation() < u64::MAX,
        ensures
            ticket == old(self).generation() + 1,
            final(self).generation() == ticket,
    {
        self.generation = self.generation + 1;
        self.generation
    }

    /// Whether the timer that carries `ticket` reports the text when it
    /// runs out: only when no keystroke came after the one that started it.
    pub fn is_current(&self, ticket: u64) -> (reports: bool)
        ensures
            reports == (ticket == self.generation()),
    {
        ticket == self.generation
    }
}

/// Whether a committed change (blur or Enter) is reported: only when the
/// field is not debounced, as a debounced field reports from its timer.
pub fn reports_commit(debounced: bool) -> (reports: bool)
    ensures
        reports == !debounced,
{
    !debounced
}

/// A keystroke after the one that started a timer leaves that timer's
/// ticket stale: the timer no longer reports.
pub proof fn lemma_later_keystroke_supersedes(started: Debounce, now: Debounce, ticket: u64)
    requires
        ticket == started.generation(),
        now.generation() > started.generation(),
    ensures
        ticket != now.generation(),
{
}

} // verus!
