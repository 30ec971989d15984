//! Style constants for the Navbar component.
use crate::date_picker::ComponentMode;
use crate::text::push_str;
use vstd::prelude::*;

verus! {

pub const NAVBAR_BASE: &'static str = "g3-navbar flex min-h-0 flex-1 flex-col overflow-hidden bg-white";

pub const NAVBAR_IOS: &'static str = "g3-navbar-ios";

pub const NAVBAR_MD: &'static str = "g3-navbar-md";

/// The named constants that the style catalog lists, in order, by view.
pub open spec fn catalog_entries() -> Seq<(Seq<char>, Seq<char>)> {
    seq![
        ("NAVBAR_BASE"@, NAVBAR_BASE@),
        ("NAVBAR_IOS"@, NAVBAR_IOS@),
        ("NAVBAR_MD"@, NAVBAR_MD@),
    ]
}

/// Catalog of the style constants: each name with its classes.
pub fn catalog() -> (entries: Vec<(&'static str, &'static str)>)
    ensures
        entries@.map_values(|e: (&str, &str)| (e.0@, e.1@)) == catalog_entries(),
{
    let entries = vec![
        ("NAVBAR_BASE", NAVBAR_BASE),
        ("NAVBAR_IOS", NAVBAR_IOS),
        ("NAVBAR_MD", NAVBAR_MD),
    ];
    proof {
        assert(entries@.map_values(|e: (&str, &str)| (e.0@, e.1@)) =~= catalog_entries());
    }
    entries
}

/// The classes of a navbar in `mode`: the base classes and the look's
/// class.
pub open spec fn navbar_class_text(mode: ComponentMode) -> Seq<char> {
    match mode {
        ComponentMode::Ios => NAVBAR_BASE@ + " "@ + NAVBAR_IOS@,
        ComponentMode::Md => NAVBAR_BASE@ + " "@ + NAVBAR_MD@,
    }
}

/// The classes of a navbar in `mode`.
pub fn navbar_class(mode: ComponentMode) -> (class: String)
    ensures
        class@ == navbar_class_text(mode),
{
    let mut class = String::new();
    push_str(&mut class, NAVBAR_BASE);
    push_str(&mut class, " ");
    match mode {
        ComponentMode::Ios => {
            push_str(&mut class, NAVBAR_IOS);
        },
        ComponentMode::Md => {
            push_str(&mut class, NAVBAR_MD);
        },
    }
    proof {
        assert(class@ =~= navbar_class_text(mode));
    }
    class
}

} // verus!
