//! The width class of the app shell.
use vstd::prelude::*;

verus! {

/// The width class of the app shell.
#[derive(Clone, Copy, Debug, PartialEq, Eq, Structural, Hash)]
pub enum ShellSize {
    /// Narrower than `48rem`: a phone, or a window cut down to one.
    Compact,
    /// `48rem` and wider.
    Wide,
}

impl Default for ShellSize {
    fn default() -> (value: Self)
        ensures
            value == ShellSize::Compact,
    {
        ShellSize::Compact
    }
}
impl ShellSize {
    /// Whether this is [`ShellSize::Wide`].
    pub fn is_wide(self) -> (wide: bool)
        ensures
            wide == (self == ShellSize::Wide),
    {
        match self {
            ShellSize::Wide => true,
            ShellSize::Compact => false,
        }
    }

    /// Whether this is [`ShellSize::Compact`].
    pub fn is_compact(self) -> (compact: bool)
        ensures
            compact == (self == ShellSize::Compact),
    {
        match self {
            ShellSize::Compact => true,
            ShellSize::Wide => false,
        }
    }
}

} // verus!
