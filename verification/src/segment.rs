//! What a press on a segment button does.
use vstd::prelude::*;

verus! {

/// What a press on a segment button does: whether the pick is reported to
/// the group's listener, and whether the group's value changes to it.
#[derive(Clone, Copy, Debug, PartialEq, Eq, Structural, Hash)]
pub struct SegmentPick {
    /// The picked value is reported.
    pub report: bool,
    /// The group's value becomes the picked value.
    pub select: bool,
}

/// The effect of pressing a segment button that is `disabled` or not and
/// `selected` or not, in a group that may `defer_selection` to whoever
/// listens. A disabled or already selected button does nothing; another
/// button reports the pick and, unless the group defers, becomes the value.
pub fn segment_pick(disabled: bool, selected: bool, defer_selection: bool) -> (pick: SegmentPick)
    ensures
        pick.report == (!disabled && !selected),
        pick.select == (!disabled && !selected && !defer_selection),
{
    if disabled || selected {
        return SegmentPick { report: false, select: false };
    }
    SegmentPick { report: true, select: !defer_selection }
}

} // verus!
