//! Style constants for the Fab (floating action button) component.
use vstd::prelude::*;

verus! {

pub const FAB: &'static str = "g3-fab";

pub const FAB_IOS: &'static str = "g3-fab-ios";

pub const FAB_MD: &'static str = "g3-fab-md";

pub const FAB_SMALL: &'static str = "g3-fab-small";

pub const FAB_TRANSLUCENT: &'static str = "g3-fab-translucent";

pub const FAB_LIST_BASE: &'static str = "g3-fab-list";

pub const FAB_LIST_IOS: &'static str = "g3-fab-list-ios";

pub const FAB_LIST_MD: &'static str = "g3-fab-list-md";

pub const FAB_LIST_TOP: &'static str = "g3-fab-list-top";

pub const FAB_LIST_BOTTOM: &'static str = "g3-fab-list-bottom";

pub const FAB_LIST_START: &'static str = "g3-fab-list-start";

pub const FAB_LIST_END: &'static str = "g3-fab-list-end";

/// The named constants that the style catalog lists, in order, by view.
pub open spec fn catalog_entries() -> Seq<(Seq<char>, Seq<char>)> {
    seq![
        ("FAB"@, FAB@),
        ("FAB_IOS"@, FAB_IOS@),
        ("FAB_MD"@, FAB_MD@),
        ("FAB_SMALL"@, FAB_SMALL@),
        ("FAB_TRANSLUCENT"@, FAB_TRANSLUCENT@),
        ("FAB_LIST_IOS"@, FAB_LIST_IOS@),
        ("FAB_LIST_MD"@, FAB_LIST_MD@),
        ("FAB_LIST_TOP"@, FAB_LIST_TOP@),
        ("FAB_LIST_BOTTOM"@, FAB_LIST_BOTTOM@),
        ("FAB_LIST_START"@, FAB_LIST_START@),
        ("FAB_LIST_END"@, FAB_LIST_END@),
    ]
}

/// Catalog of the style constants: each name with its classes.
pub fn catalog() -> (entries: Vec<(&'static str, &'static str)>)
    ensures
        entries@.map_values(|e: (&str, &str)| (e.0@, e.1@)) == catalog_entries(),
{
    let entries = vec![
        ("FAB", FAB),
        ("FAB_IOS", FAB_IOS),
        ("FAB_MD", FAB_MD),
        ("FAB_SMALL", FAB_SMALL),
        ("FAB_TRANSLUCENT", FAB_TRANSLUCENT),
        ("FAB_LIST_IOS", FAB_LIST_IOS),
        ("FAB_LIST_MD", FAB_LIST_MD),
        ("FAB_LIST_TOP", FAB_LIST_TOP),
        ("FAB_LIST_BOTTOM", FAB_LIST_BOTTOM),
        ("FAB_LIST_START", FAB_LIST_START),
        ("FAB_LIST_END", FAB_LIST_END),
    ];
    proof {
        assert(entries@.map_values(|e: (&str, &str)| (e.0@, e.1@)) =~= catalog_entries());
    }
    entries
}

} // verus!
