//! Style constants for the Body component.
use crate::date_picker::ComponentMode;
use crate::text::push_str;
use vstd::prelude::*;

verus! {

pub const BODY_BASE: &'static str = "g3-body flex-1 h-full overflow-hidden flex flex-col relative";

pub const BODY_IOS: &'static str = "g3-body-ios";

pub const BODY_MD: &'static str = "g3-body-md";

pub const BODY_CONTENT: &'static str = "g3-body-content overflow-y-auto overflow-x-hidden px-6 md:px-40 lg:px-80 pt-6 relative";

pub const FOOTER_SPACER: &'static str = "min-h-6";

/// The named constants that the style catalog lists, in order, by view.
pub open spec fn catalog_entries() -> Seq<(Seq<char>, Seq<char>)> {
    seq![
        ("BODY_BASE"@, BODY_BASE@),
        ("BODY_IOS"@, BODY_IOS@),
        ("BODY_MD"@, BODY_MD@),
    ]
}

/// Catalog of the style constants: each name with its classes.
pub fn catalog() -> (entries: Vec<(&'static str, &'static str)>)
    ensures
        entries@.map_values(|e: (&str, &str)| (e.0@, e.1@)) == catalog_entries(),
{
    let entries = vec![
        ("BODY_BASE", BODY_BASE),
        ("BODY_IOS", BODY_IOS),
        ("BODY_MD", BODY_MD),
    ];
    proof {
        assert(entries@.map_values(|e: (&str, &str)| (e.0@, e.1@)) =~= catalog_entries());
    }
    entries
}

/// The classes of a body in `mode`: the base classes, the look's class,
/// and the look's background, a white page on iOS and a grey one on
/// Material Design.
pub open spec fn body_class_text(mode: ComponentMode) -> Seq<char> {
    match mode {
        ComponentMode::Ios => BODY_BASE@ + " "@ + BODY_IOS@ + " bg-white"@,
        ComponentMode::Md => BODY_BASE@ + " "@ + BODY_MD@ + " bg-gray-100"@,
    }
}

/// The classes of a body in `mode`.
pub fn body_class(mode: ComponentMode) -> (class: String)
    ensures
        class@ == body_class_text(mode),
{
    let mut class = String::new();
    push_str(&mut class, BODY_BASE);
    push_str(&mut class, " ");
    match mode {
        ComponentMode::Ios => {
            push_str(&mut class, BODY_IOS);
            push_str(&mut class, " bg-white");
        },
        ComponentMode::Md => {
            push_str(&mut class, BODY_MD);
            push_str(&mut class, " bg-gray-100");
        },
    }
    proof {
        assert(class@ =~= body_class_text(mode));
    }
    class
}

} // verus!
