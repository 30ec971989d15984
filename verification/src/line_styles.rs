//! Style constants for the Line component.
use vstd::prelude::*;

verus! {

pub const LINE: &'static str = "g3-line";

pub const LINE_H: &'static str = "g3-line-h";

pub const LINE_V: &'static str = "g3-line-v";

/// The named constants that the style catalog lists, in order, by view.
pub open spec fn catalog_entries() -> Seq<(Seq<char>, Seq<char>)> {
    seq![
        ("LINE"@, LINE@),
        ("LINE_H"@, LINE_H@),
        ("LINE_V"@, LINE_V@),
    ]
}

/// Catalog of the style constants: each name with its classes.
pub fn catalog() -> (entries: Vec<(&'static str, &'static str)>)
    ensures
        entries@.map_values(|e: (&str, &str)| (e.0@, e.1@)) == catalog_entries(),
{
    let entries = vec![
        ("LINE", LINE),
        ("LINE_H", LINE_H),
        ("LINE_V", LINE_V),
    ];
    proof {
        assert(entries@.map_values(|e: (&str, &str)| (e.0@, e.1@)) =~= catalog_entries());
    }
    entries
}

} // verus!
