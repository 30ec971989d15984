//! Navigation bars and rails: compact behaviour and item groups.
use vstd::prelude::*;

verus! {

/// What an `AdaptiveNav` does on a compact shell (narrower than `48rem`). On wide shells it is always a rail.
#[derive(Clone, Copy, Debug, PartialEq, Eq, Structural, Hash)]
pub enum AdaptiveNavCompact {
    /// Show a bottom bar.
    Bar,
    /// Show nothing. For full-screen routes, such as routed sheets, that cover the bottom bar on phones but keep the rail beside them on wide shells.
    Hidden,
}

impl Default for AdaptiveNavCompact {
    fn default() -> (value: Self)
        ensures
            value == AdaptiveNavCompact::Bar,
    {
        AdaptiveNavCompact::Bar
    }
}

/// Where a `NavItem` sits in a rail. Bottom bars keep declaration order.
#[derive(Clone, Copy, Debug, PartialEq, Eq, Structural, Hash)]
pub enum NavItemGroup {
    /// Main destinations, at the top of the rail.
    Primary,
    /// Account and settings destinations, grouped at the bottom of the rail.
    Secondary,
}

impl Default for NavItemGroup {
    fn default() -> (value: Self)
        ensures
            value == NavItemGroup::Primary,
    {
        NavItemGroup::Primary
    }
}

/// The group class for `value`; none for `Primary`.
pub open spec fn group_class(value: NavItemGroup) -> Seq<char> {
    match value {
        NavItemGroup::Primary => ""@,
        NavItemGroup::Secondary => "g3-nav-item-secondary"@,
    }
}

impl NavItemGroup {
    /// The group class; empty for `Primary`.
    pub fn class(self) -> (text: &'static str)
        ensures
            text@ == group_class(self),
    {
        match self {
            NavItemGroup::Primary => "",
            NavItemGroup::Secondary => "g3-nav-item-secondary",
        }
    }
}
/// The container class of an adaptive navigation in `compact` mode.
pub open spec fn adaptive_class(compact: AdaptiveNavCompact) -> Seq<char> {
    match compact {
        AdaptiveNavCompact::Bar => "g3-nav-adaptive"@,
        AdaptiveNavCompact::Hidden => "g3-nav-adaptive g3-nav-compact-hidden"@,
    }
}

impl AdaptiveNavCompact {
    /// The container class of an adaptive navigation.
    pub fn class(self) -> (class: &'static str)
        ensures
            class@ == adaptive_class(self),
    {
        match self {
            AdaptiveNavCompact::Bar => "g3-nav-adaptive",
            AdaptiveNavCompact::Hidden => "g3-nav-adaptive g3-nav-compact-hidden",
        }
    }
}

} // verus!
