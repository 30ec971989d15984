//! Where a checkbox, toggle or radio sits relative to its label.
use vstd::prelude::*;

verus! {

/// Where a checkbox, toggle, or radio sits relative to its label.
#[derive(Clone, Copy, Debug, PartialEq, Eq, Structural, Hash)]
pub enum ControlLabelPlacement {
    /// Label first, control at the trailing edge, as in iOS settings.
    Start,
    /// Control first, label after it.
    End,
    /// Label in a fixed-width leading column, so labels align across rows.
    Fixed,
    /// Label above the control.
    Stacked,
}

impl Default for ControlLabelPlacement {
    fn default() -> (value: Self)
        ensures
            value == ControlLabelPlacement::Start,
    {
        ControlLabelPlacement::Start
    }
}

/// The row class for `value`; none for `End`.
pub open spec fn placement_class(value: ControlLabelPlacement) -> Seq<char> {
    match value {
        ControlLabelPlacement::Start => "g3-control-label-start"@,
        ControlLabelPlacement::End => ""@,
        ControlLabelPlacement::Fixed => "g3-control-label-fixed"@,
        ControlLabelPlacement::Stacked => "g3-control-label-stacked"@,
    }
}

impl ControlLabelPlacement {
    /// The row class for this placement; empty for `End`.
    pub fn class(self) -> (text: &'static str)
        ensures
            text@ == placement_class(self),
    {
        match self {
            ControlLabelPlacement::Start => "g3-control-label-start",
            ControlLabelPlacement::End => "",
            ControlLabelPlacement::Fixed => "g3-control-label-fixed",
            ControlLabelPlacement::Stacked => "g3-control-label-stacked",
        }
    }
}

/// The `aria-checked` value of a checkbox: `mixed` when indeterminate,
/// whatever it holds, and otherwise `true` or `false`.
pub open spec fn aria_checked_text(indeterminate: bool, checked: bool) -> Seq<char> {
    if indeterminate {
        "mixed"@
    } else if checked {
        "true"@
    } else {
        "false"@
    }
}

/// The `aria-checked` value of a checkbox.
pub fn aria_checked(indeterminate: bool, checked: bool) -> (text: &'static str)
    ensures
        text@ == aria_checked_text(indeterminate, checked),
{
    if indeterminate {
        "mixed"
    } else if checked {
        "true"
    } else {
        "false"
    }
}

} // verus!
