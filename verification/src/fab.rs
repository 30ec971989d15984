//! Where floating action buttons sit and which way their lists open.
use vstd::prelude::*;

verus! {

/// Vertical position of a `Fab`.
#[derive(Clone, Copy, Debug, PartialEq, Eq, Structural, Hash)]
pub enum FabVertical {
    /// Top edge.
    Top,
    /// Centre.
    Center,
    /// Bottom edge.
    Bottom,
}

impl Default for FabVertical {
    fn default() -> (value: Self)
        ensures
            value == FabVertical::Bottom,
    {
        FabVertical::Bottom
    }
}

/// The position class for `value`.
pub open spec fn vertical_class(value: FabVertical) -> Seq<char> {
    match value {
        FabVertical::Top => "g3-fab-vertical-top"@,
        FabVertical::Center => "g3-fab-vertical-center"@,
        FabVertical::Bottom => "g3-fab-vertical-bottom"@,
    }
}

impl FabVertical {
    /// The position class.
    pub fn class(self) -> (text: &'static str)
        ensures
            text@ == vertical_class(self),
    {
        match self {
            FabVertical::Top => "g3-fab-vertical-top",
            FabVertical::Center => "g3-fab-vertical-center",
            FabVertical::Bottom => "g3-fab-vertical-bottom",
        }
    }
}

/// Horizontal position of a `Fab`, in reading direction.
#[derive(Clone, Copy, Debug, PartialEq, Eq, Structural, Hash)]
pub enum FabHorizontal {
    /// Leading edge.
    Start,
    /// Centre.
    Center,
    /// Trailing edge.
    End,
}

impl Default for FabHorizontal {
    fn default() -> (value: Self)
        ensures
            value == FabHorizontal::End,
    {
        FabHorizontal::End
    }
}

/// The position class for `value`.
pub open spec fn horizontal_class(value: FabHorizontal) -> Seq<char> {
    match value {
        FabHorizontal::Start => "g3-fab-horizontal-start"@,
        FabHorizontal::Center => "g3-fab-horizontal-center"@,
        FabHorizontal::End => "g3-fab-horizontal-end"@,
    }
}

impl FabHorizontal {
    /// The position class.
    pub fn class(self) -> (text: &'static str)
        ensures
            text@ == horizontal_class(self),
    {
        match self {
            FabHorizontal::Start => "g3-fab-horizontal-start",
            FabHorizontal::Center => "g3-fab-horizontal-center",
            FabHorizontal::End => "g3-fab-horizontal-end",
        }
    }
}

/// Which way a `FabList` opens from its button.
#[derive(Clone, Copy, Debug, PartialEq, Eq, Structural, Hash)]
pub enum FabListSide {
    /// Upward.
    Top,
    /// Downward.
    Bottom,
    /// Toward the leading edge.
    Start,
    /// Toward the trailing edge.
    End,
}

impl Default for FabListSide {
    fn default() -> (value: Self)
        ensures
            value == FabListSide::Top,
    {
        FabListSide::Top
    }
}

/// The side class for `value`.
pub open spec fn side_class(value: FabListSide) -> Seq<char> {
    match value {
        FabListSide::Top => "g3-fab-list-top"@,
        FabListSide::Bottom => "g3-fab-list-bottom"@,
        FabListSide::Start => "g3-fab-list-start"@,
        FabListSide::End => "g3-fab-list-end"@,
    }
}

impl FabListSide {
    /// The side class.
    pub fn class(self) -> (text: &'static str)
        ensures
            text@ == side_class(self),
    {
        match self {
            FabListSide::Top => "g3-fab-list-top",
            FabListSide::Bottom => "g3-fab-list-bottom",
            FabListSide::Start => "g3-fab-list-start",
            FabListSide::End => "g3-fab-list-end",
        }
    }
}

/// `FabButton` size.
#[derive(Clone, Copy, Debug, PartialEq, Eq, Structural, Hash)]
pub enum FabSize {
    /// 56px.
    Regular,
    /// 40px, for the buttons in a `FabList`.
    Small,
}

impl Default for FabSize {
    fn default() -> (value: Self)
        ensures
            value == FabSize::Regular,
    {
        FabSize::Regular
    }
}
impl FabSize {
    /// Whether this is the small size, used in a `FabList`.
    pub fn is_small(self) -> (small: bool)
        ensures
            small == (self == FabSize::Small),
    {
        match self {
            FabSize::Small => true,
            FabSize::Regular => false,
        }
    }
}

} // verus!
