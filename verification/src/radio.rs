//! What a press on a radio does to its group's selection.
use vstd::prelude::*;

verus! {

/// What a press on one radio of a group does to the group's selection.
#[derive(Clone, Copy, Debug, PartialEq, Eq, Structural, Hash)]
pub enum RadioPress {
    /// The selection stays as it is.
    Keep,
    /// The selection is cleared: nothing is selected.
    Clear,
    /// The pressed radio becomes the selection.
    Select,
}

/// The effect of pressing a radio that is `selected` or not, in a group
/// that does or does not `allow_empty`, when the radio is `disabled` or not.
/// A disabled radio ignores presses; pressing the selected radio clears the
/// selection where the group allows it to be empty, and otherwise leaves
/// it; pressing another radio selects it.
pub open spec fn press_effect(selected: bool, allow_empty: bool, disabled: bool) -> RadioPress {
    if disabled {
        RadioPress::Keep
    } else if selected {
        if allow_empty {
            RadioPress::Clear
        } else {
            RadioPress::Keep
        }
    } else {
        RadioPress::Select
    }
}

/// What pressing a radio does.
pub fn radio_press(selected: bool, allow_empty: bool, disabled: bool) -> (effect: RadioPress)
    ensures
        effect == press_effect(selected, allow_empty, disabled),
{
    // A native radio cannot be unchecked by clicking it, so clearing an
    // allow-empty selection happens on the press, before the click.
    let clear_on_press = selected && allow_empty;
    if clear_on_press && !disabled {
        RadioPress::Clear
    } else if !selected && !disabled {
        RadioPress::Select
    } else {
        RadioPress::Keep
    }
}

/// The group's selection after a press on the radio of `value`, from
/// `current`.
pub open spec fn selection_after<T>(effect: RadioPress, value: T, current: Option<T>) -> Option<T> {
    match effect {
        RadioPress::Keep => current,
        RadioPress::Clear => None,
        RadioPress::Select => Some(value),
    }
}

/// A press on an enabled radio leaves it selected, unless it was selected
/// and the group allows an empty selection, which clears the group. So
/// pressing an unselected radio twice clears the group where an empty
/// selection is allowed, and leaves the radio selected where it is not.
pub proof fn lemma_pressing_twice<T>(value: T, current: Option<T>, allow_empty: bool)
    ensures
        ({
            let first = selection_after(press_effect(current == Some(value), allow_empty, false), value, current);
            let second = selection_after(press_effect(first == Some(value), allow_empty, false), value, first);
            &&& first == Some(value) || (allow_empty && current == Some(value) && first is None)
            &&& current != Some(value) ==> (allow_empty ==> second is None) && (!allow_empty ==> second == Some(value))
        }),
{
}

} // verus!
