//! The semantic color roles components accept.
use vstd::prelude::*;

verus! {

/// A semantic color for buttons, badges, chips, toasts, and swipe actions.
///
/// Each role maps to a theme token, so it follows the app's theme.
#[derive(Clone, Copy, Debug, PartialEq, Eq, Structural, Hash)]
pub enum Color {
    /// The theme accent. The default for actions.
    Accent,
    /// A plain, unemphasised surface or text color.
    Neutral,
    /// A positive or completed state.
    Success,
    /// A state that needs attention.
    Warning,
    /// An error or a destructive action.
    Danger,
}

impl Default for Color {
    fn default() -> (color: Self)
        ensures
            color == Color::Accent,
    {
        Color::Accent
    }
}

/// The class suffix the stylesheet uses for `color`.
pub open spec fn color_class(color: Color) -> Seq<char> {
    match color {
        Color::Accent => "accent"@,
        Color::Neutral => "neutral"@,
        Color::Success => "success"@,
        Color::Warning => "warning"@,
        Color::Danger => "danger"@,
    }
}

impl Color {
    /// The class suffix the stylesheet uses for this color.
    pub fn as_str(self) -> (class: &'static str)
        ensures
            class@ == color_class(self),
    {
        match self {
            Color::Accent => "accent",
            Color::Neutral => "neutral",
            Color::Success => "success",
            Color::Warning => "warning",
            Color::Danger => "danger",
        }
    }
}

} // verus!
