//! How buttons are filled, sized and stretched, as stylesheet classes.
use crate::color::{color_class, Color};
use crate::text::push_str;
use vstd::prelude::*;

verus! {

/// How a button is filled.
#[derive(Clone, Copy, Debug, PartialEq, Eq, Structural, Hash)]
pub enum ButtonFill {
    /// Filled with its color. The primary action on a screen.
    Solid,
    /// A colored border and label, for a secondary action.
    Outline,
    /// Label only, for low-emphasis and toolbar actions.
    Clear,
}

impl Default for ButtonFill {
    fn default() -> (value: Self)
        ensures
            value == ButtonFill::Solid,
    {
        ButtonFill::Solid
    }
}

/// The class for `value`.
pub open spec fn fill_class(value: ButtonFill) -> Seq<char> {
    match value {
        ButtonFill::Solid => "g3-btn-solid"@,
        ButtonFill::Outline => "g3-btn-outline"@,
        ButtonFill::Clear => "g3-btn-clear"@,
    }
}

impl ButtonFill {
    /// The class for this fill.
    pub fn class(self) -> (text: &'static str)
        ensures
            text@ == fill_class(self),
    {
        match self {
            ButtonFill::Solid => "g3-btn-solid",
            ButtonFill::Outline => "g3-btn-outline",
            ButtonFill::Clear => "g3-btn-clear",
        }
    }
}

/// Button size.
#[derive(Clone, Copy, Debug, PartialEq, Eq, Structural, Hash)]
pub enum ButtonSize {
    /// Compact, for toolbars and dense rows.
    Sm,
    /// Standard.
    Md,
    /// Prominent, for a main call to action.
    Lg,
}

impl Default for ButtonSize {
    fn default() -> (value: Self)
        ensures
            value == ButtonSize::Md,
    {
        ButtonSize::Md
    }
}

/// The class for `value`.
pub open spec fn size_class(value: ButtonSize) -> Seq<char> {
    match value {
        ButtonSize::Sm => "g3-btn-sm"@,
        ButtonSize::Md => "g3-btn-md-size"@,
        ButtonSize::Lg => "g3-btn-lg"@,
    }
}

impl ButtonSize {
    /// The class for this size.
    pub fn class(self) -> (text: &'static str)
        ensures
            text@ == size_class(self),
    {
        match self {
            ButtonSize::Sm => "g3-btn-sm",
            ButtonSize::Md => "g3-btn-md-size",
            ButtonSize::Lg => "g3-btn-lg",
        }
    }
}

/// How a button fills the width of its container.
#[derive(Clone, Copy, Debug, PartialEq, Eq, Structural, Hash)]
pub enum ButtonExpand {
    /// Full width, keeping its rounded corners.
    Block,
    /// Full width with square corners and no side borders, edge to edge.
    Full,
}
/// The button's color class: none for the accent, which is the base color,
/// and `g3-btn-` with the color's name otherwise.
pub open spec fn button_color_class(color: Color) -> Seq<char> {
    match color {
        Color::Accent => Seq::empty(),
        other => "g3-btn-"@ + color_class(other),
    }
}

/// The class for how a button fills its container's width, if it does.
pub open spec fn expand_class(expand: Option<ButtonExpand>) -> Seq<char> {
    match expand {
        Some(ButtonExpand::Block) => "g3-btn-expand-block"@,
        Some(ButtonExpand::Full) => "g3-btn-expand-full"@,
        None => Seq::empty(),
    }
}

/// The button's color class.
pub fn color_class_of(color: Color) -> (class: String)
    ensures
        class@ == button_color_class(color),
{
    let mut class = String::new();
    match color {
        Color::Accent => {},
        other => {
            push_str(&mut class, "g3-btn-");
            push_str(&mut class, other.as_str());
        },
    }
    class
}

/// The class for how a button fills its container's width.
pub fn expand_class_of(expand: Option<ButtonExpand>) -> (class: &'static str)
    ensures
        class@ == expand_class(expand),
{
    match expand {
        Some(ButtonExpand::Block) => "g3-btn-expand-block",
        Some(ButtonExpand::Full) => "g3-btn-expand-full",
        None => {
            proof {
                reveal_strlit("");
            }
            ""
        },
    }
}

} // verus!
