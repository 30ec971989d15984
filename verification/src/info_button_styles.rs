//! Style constants for the InfoButton component.
use vstd::prelude::*;

verus! {

/// Base class for info button.
pub const BASE: &'static str = "g3-info-btn";

/// iOS variant - subtle circular background with spring transition.
pub const IOS: &'static str = "g3-info-btn-ios";

/// Android variant - flat, no background.
pub const MD: &'static str = "g3-info-btn-md";

/// The icon inside the button.
pub const ICON: &'static str = "g3-info-btn-icon";

/// The named constants that the style catalog lists, in order, by view.
pub open spec fn catalog_entries() -> Seq<(Seq<char>, Seq<char>)> {
    seq![
        ("base"@, BASE@),
        ("ios"@, IOS@),
        ("md"@, MD@),
    ]
}

/// Catalog of the style constants: each name with its classes.
pub fn catalog() -> (entries: Vec<(&'static str, &'static str)>)
    ensures
        entries@.map_values(|e: (&str, &str)| (e.0@, e.1@)) == catalog_entries(),
{
    let entries = vec![
        ("base", BASE),
        ("ios", IOS),
        ("md", MD),
    ];
    proof {
        assert(entries@.map_values(|e: (&str, &str)| (e.0@, e.1@)) =~= catalog_entries());
    }
    entries
}

} // verus!
