//! The direction of dividers.
use vstd::prelude::*;

verus! {

/// Direction of a `Divider`.
#[derive(Clone, Copy, Debug, PartialEq, Eq, Structural, Hash)]
pub enum DividerOrientation {
    /// A horizontal rule between stacked content.
    Horizontal,
    /// A vertical rule between side-by-side content.
    Vertical,
}

impl Default for DividerOrientation {
    fn default() -> (value: Self)
        ensures
            value == DividerOrientation::Horizontal,
    {
        DividerOrientation::Horizontal
    }
}
/// The class and the ARIA orientation of a divider running in `orientation`.
pub open spec fn divider_names(orientation: DividerOrientation) -> (Seq<char>, Seq<char>) {
    match orientation {
        DividerOrientation::Horizontal => ("g3-divider-h"@, "horizontal"@),
        DividerOrientation::Vertical => ("g3-divider-v"@, "vertical"@),
    }
}

impl DividerOrientation {
    /// The divider's class and its ARIA orientation.
    pub fn names(self) -> (names: (&'static str, &'static str))
        ensures
            names.0@ == divider_names(self).0,
            names.1@ == divider_names(self).1,
    {
        match self {
            DividerOrientation::Horizontal => ("g3-divider-h", "horizontal"),
            DividerOrientation::Vertical => ("g3-divider-v", "vertical"),
        }
    }

    /// Whether a label is shown: only a horizontal divider has room for one.
    pub fn shows_label(self) -> (shows: bool)
        ensures
            shows == (self == DividerOrientation::Horizontal),
    {
        match self {
            DividerOrientation::Horizontal => true,
            DividerOrientation::Vertical => false,
        }
    }
}

} // verus!
