//! The orientation of line separators, and their classes.
use crate::line_styles::{LINE, LINE_H, LINE_V};
use crate::text::push_str;
use vstd::prelude::*;

verus! {

/// Orientation of the line separator.
#[derive(Clone, Copy, Debug, PartialEq, Eq, Structural, Hash)]
pub enum LineOrientation {
    /// Horizontal.
    Horizontal,
    /// Vertical.
    Vertical,
}

impl Default for LineOrientation {
    fn default() -> (value: Self)
        ensures
            value == LineOrientation::Horizontal,
    {
        LineOrientation::Horizontal
    }
}

/// The orientation name of `value`.
pub open spec fn orientation_name(value: LineOrientation) -> Seq<char> {
    match value {
        LineOrientation::Horizontal => "horizontal"@,
        LineOrientation::Vertical => "vertical"@,
    }
}

impl LineOrientation {
    /// The orientation name.
    pub fn as_str(self) -> (text: &'static str)
        ensures
            text@ == orientation_name(self),
    {
        match self {
            LineOrientation::Horizontal => "horizontal",
            LineOrientation::Vertical => "vertical",
        }
    }
}

/// The classes of a line: the base class and the orientation's class.
pub open spec fn line_class_text(orientation: LineOrientation) -> Seq<char> {
    LINE@ + " "@ + match orientation {
        LineOrientation::Horizontal => LINE_H@,
        LineOrientation::Vertical => LINE_V@,
    }
}

/// The classes of a line of `orientation`.
pub fn line_class(orientation: LineOrientation) -> (class: String)
    ensures
        class@ == line_class_text(orientation),
{
    let mut class = String::new();
    push_str(&mut class, LINE);
    push_str(&mut class, " ");
    push_str(&mut class, match orientation {
        LineOrientation::Horizontal => LINE_H,
        LineOrientation::Vertical => LINE_V,
    });
    proof {
        assert(class@ =~= line_class_text(orientation));
    }
    class
}

} // verus!
