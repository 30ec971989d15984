//! Single-choice pickers: their widths and options.
use vstd::prelude::*;
use crate::text::same_text;
use vstd::std_specs::cmp::PartialEqSpec;

verus! {

/// How wide a select is.
#[derive(Clone, Copy, Debug, PartialEq, Eq, Structural, Hash)]
pub enum SelectWidth {
    /// As wide as its container, like other form fields.
    Fill,
    /// As wide as the chosen option, for toolbars and inline filters.
    Fit,
    /// A fixed 8rem.
    Sm,
    /// A fixed 12rem.
    Md,
    /// A fixed 18rem.
    Lg,
}

impl Default for SelectWidth {
    fn default() -> (value: Self)
        ensures
            value == SelectWidth::Fill,
    {
        SelectWidth::Fill
    }
}

/// The width class for `value`; none for `Fill`.
pub open spec fn width_class(value: SelectWidth) -> Seq<char> {
    match value {
        SelectWidth::Fill => ""@,
        SelectWidth::Fit => "g3-select-width-fit"@,
        SelectWidth::Sm => "g3-select-width-sm"@,
        SelectWidth::Md => "g3-select-width-md"@,
        SelectWidth::Lg => "g3-select-width-lg"@,
    }
}

impl SelectWidth {
    /// The width class; empty for `Fill`.
    pub fn class(self) -> (text: &'static str)
        ensures
            text@ == width_class(self),
    {
        match self {
            SelectWidth::Fill => "",
            SelectWidth::Fit => "g3-select-width-fit",
            SelectWidth::Sm => "g3-select-width-sm",
            SelectWidth::Md => "g3-select-width-md",
            SelectWidth::Lg => "g3-select-width-lg",
        }
    }
}
/// One choice in a select.
#[derive(Clone, Debug, PartialEq)]
pub struct SelectOption<T> {
    /// The value chosen.
    pub value: T,
    /// Text shown for it.
    pub label: String,
    /// Secondary text under the label.
    pub description: Option<String>,
    /// Whether it can be chosen.
    pub disabled: bool,
}

impl<T> SelectOption<T> {
    /// An option with a value and its display text.
    pub fn new(value: T, label: &str) -> (option: Self)
        ensures
            option.value == value,
            option.label@ == label@,
            option.description is None,
            !option.disabled,
    {
        SelectOption { value, label: label.to_owned(), description: None, disabled: false }
    }

    /// Add secondary text.
    pub fn description(self, description: &str) -> (option: Self)
        ensures
            option.value == self.value,
            option.label == self.label,
            option.description matches Some(d) && d@ == description@,
            option.disabled == self.disabled,
    {
        SelectOption { description: Some(description.to_owned()), ..self }
    }

    /// Make the option unavailable.
    pub fn disabled(self) -> (option: Self)
        ensures
            option.value == self.value,
            option.label == self.label,
            option.description == self.description,
            option.disabled,
    {
        SelectOption { disabled: true, ..self }
    }
}

impl<'a> From<&'a str> for SelectOption<String> {
    /// An option whose value and label are both `text`.
    fn from(text: &'a str) -> (option: Self)
        ensures
            option.value@ == text@,
            option.label@ == text@,
            option.description is None,
            !option.disabled,
    {
        SelectOption::new(text.to_owned(), text)
    }
}

/// What `from` gives is stated by its own `ensures`; no spec function
/// stands for it.
impl<'a> vstd::std_specs::convert::FromSpecImpl<&'a str> for SelectOption<String> {
    open spec fn obeys_from_spec() -> bool {
        false
    }

    closed spec fn from_spec(text: &'a str) -> Self {
        choose|option: Self|
            option.value@ == text@ && option.label@ == text@ && option.description is None
                && !option.disabled
    }
}

impl From<String> for SelectOption<String> {
    /// An option whose value and label are both `text`.
    fn from(text: String) -> (option: Self)
        ensures
            option.value@ == text@,
            option.label@ == text@,
            option.description is None,
            !option.disabled,
    {
        let label = text.clone();
        SelectOption::new(text, label.as_str())
    }
}

/// What `from` gives is stated by its own `ensures`; no spec function
/// stands for it.
impl vstd::std_specs::convert::FromSpecImpl<String> for SelectOption<String> {
    open spec fn obeys_from_spec() -> bool {
        false
    }

    closed spec fn from_spec(text: String) -> Self {
        choose|option: Self|
            option.value@ == text@ && option.label@ == text@ && option.description is None
                && !option.disabled
    }
}

/// The value a select starts with: the given default, or else a clone of
/// the first option's value, or nothing when there are no options.
pub fn initial_value<T: Clone>(default_value: Option<T>, options: &[SelectOption<T>]) -> (value: Option<T>)
    ensures
        match default_value {
            Some(v) => value == Some(v),
            None => if options@.len() > 0 {
                value matches Some(v) && cloned(options@[0].value, v)
            } else {
                value is None
            },
        },
{
    match default_value {
        Some(v) => Some(v),
        None => if options.len() > 0 {
            Some(options[0].value.clone())
        } else {
            None
        },
    }
}

/// The option a select shows as chosen for the value `current`: the first
/// whose value equals it. `None` when nothing is chosen or no option
/// matches, and the trigger shows its placeholder. The contract holds for
/// a value type whose `==` has a specification (`T::obeys_eq_spec()`); for
/// text values, [`chosen_text_index`] states it exactly.
pub fn chosen_index<T: PartialEq>(options: &[SelectOption<T>], current: Option<&T>) -> (index: Option<usize>)
    ensures
        T::obeys_eq_spec() ==> match current {
            None => index is None,
            Some(c) => match index {
                Some(i) => i < options@.len() && options@[i as int].value.eq_spec(c) && forall|j: int|
                    0 <= j < i ==> !options@[j].value.eq_spec(c),
                None => forall|j: int| 0 <= j < options@.len() ==> !options@[j].value.eq_spec(c),
            },
        },
{
    let wanted = match current {
        Some(c) => c,
        None => return None,
    };
    let mut i: usize = 0;
    while i < options.len()
        invariant
            i <= options.len(),
            current == Some(wanted),
            T::obeys_eq_spec() ==> forall|j: int| 0 <= j < i ==> !options@[j].value.eq_spec(wanted),
        decreases options.len() - i,
    {
        if options[i].value == *wanted {
            return Some(i);
        }
        i = i + 1;
    }
    None
}

/// The option a select of text values shows as chosen for the value
/// `current`: the first whose value is that text, if any.
pub fn chosen_text_index(options: &[SelectOption<String>], current: &str) -> (index: Option<usize>)
    ensures
        match index {
            Some(i) => i < options@.len() && options@[i as int].value@ == current@ && forall|j: int|
                0 <= j < i ==> options@[j].value@ != current@,
            None => forall|j: int| 0 <= j < options@.len() ==> options@[j].value@ != current@,
        },
{
    let mut i: usize = 0;
    while i < options.len()
        invariant
            i <= options.len(),
            forall|j: int| 0 <= j < i ==> options@[j].value@ != current@,
        decreases options.len() - i,
    {
        if same_text(options[i].value.as_str(), current) {
            return Some(i);
        }
        i = i + 1;
    }
    None
}

/// The value a press on option `index` picks: a clone of the option's
/// value, which becomes the select's value, closes the list and is
/// reported; none for a disabled option, which takes no presses.
pub fn select_pick<T: Clone>(options: &[SelectOption<T>], index: usize) -> (picked: Option<T>)
    requires
        index < options@.len(),
    ensures
        options@[index as int].disabled ==> picked is None,
        !options@[index as int].disabled ==> (picked matches Some(v) && cloned(
            options@[index as int].value,
            v,
        )),
{
    if options[index].disabled {
        None
    } else {
        Some(options[index].value.clone())
    }
}

} // verus!
