//! Spacing and alignment of stacks and grids.
use crate::text::{decimal, decimal_chars, push_chars, push_str};
use vstd::prelude::*;

verus! {

/// A spacing step, shared by stacks and grids.
#[derive(Clone, Copy, Debug, PartialEq, Eq, Structural, Hash)]
pub enum Space {
    /// No space.
    Zero,
    /// 4px.
    Xs,
    /// 8px.
    Sm,
    /// 12px.
    Md,
    /// 16px.
    Lg,
    /// 24px.
    Xl,
}

impl Default for Space {
    fn default() -> (value: Self)
        ensures
            value == Space::Md,
    {
        Space::Md
    }
}

/// The spacing name the stylesheet reads for `value`.
pub open spec fn space_name(value: Space) -> Seq<char> {
    match value {
        Space::Zero => "none"@,
        Space::Xs => "xs"@,
        Space::Sm => "sm"@,
        Space::Md => "md"@,
        Space::Lg => "lg"@,
        Space::Xl => "xl"@,
    }
}

impl Space {
    /// The spacing name the stylesheet reads.
    pub fn as_str(self) -> (text: &'static str)
        ensures
            text@ == space_name(self),
    {
        match self {
            Space::Zero => "none",
            Space::Xs => "xs",
            Space::Sm => "sm",
            Space::Md => "md",
            Space::Lg => "lg",
            Space::Xl => "xl",
        }
    }
}

/// Cross-axis alignment in a stack.
#[derive(Clone, Copy, Debug, PartialEq, Eq, Structural, Hash)]
pub enum StackAlign {
    /// Fill the cross axis.
    Stretch,
    /// Align to the start.
    Start,
    /// Centre.
    Center,
    /// Align to the end.
    End,
    /// Align text baselines, for rows mixing sizes.
    Baseline,
}

impl Default for StackAlign {
    fn default() -> (value: Self)
        ensures
            value == StackAlign::Stretch,
    {
        StackAlign::Stretch
    }
}

/// The alignment name the stylesheet reads for `value`.
pub open spec fn align_name(value: StackAlign) -> Seq<char> {
    match value {
        StackAlign::Stretch => "stretch"@,
        StackAlign::Start => "start"@,
        StackAlign::Center => "center"@,
        StackAlign::End => "end"@,
        StackAlign::Baseline => "baseline"@,
    }
}

impl StackAlign {
    /// The alignment name the stylesheet reads.
    pub fn as_str(self) -> (text: &'static str)
        ensures
            text@ == align_name(self),
    {
        match self {
            StackAlign::Stretch => "stretch",
            StackAlign::Start => "start",
            StackAlign::Center => "center",
            StackAlign::End => "end",
            StackAlign::Baseline => "baseline",
        }
    }
}

/// Main-axis distribution in a stack.
#[derive(Clone, Copy, Debug, PartialEq, Eq, Structural, Hash)]
pub enum StackJustify {
    /// Pack at the start.
    Start,
    /// Centre.
    Center,
    /// Pack at the end.
    End,
    /// Spread with the space between items.
    Between,
}

impl Default for StackJustify {
    fn default() -> (value: Self)
        ensures
            value == StackJustify::Start,
    {
        StackJustify::Start
    }
}

/// The distribution name the stylesheet reads for `value`.
pub open spec fn justify_name(value: StackJustify) -> Seq<char> {
    match value {
        StackJustify::Start => "start"@,
        StackJustify::Center => "center"@,
        StackJustify::End => "end"@,
        StackJustify::Between => "between"@,
    }
}

impl StackJustify {
    /// The distribution name the stylesheet reads.
    pub fn as_str(self) -> (text: &'static str)
        ensures
            text@ == justify_name(self),
    {
        match self {
            StackJustify::Start => "start",
            StackJustify::Center => "center",
            StackJustify::End => "end",
            StackJustify::Between => "between",
        }
    }
}
/// The CSS column template for `count` equal columns (at least one).
pub open spec fn count_template(count: int) -> Seq<char> {
    "repeat("@ + decimal((if count < 1 { 1 } else { count }) as nat) + ", minmax(0, 1fr))"@
}

/// The CSS `grid-template-columns` value for a fixed number of equal columns.
pub fn grid_count_template(count: u16) -> (template: String)
    ensures
        template@ == count_template(count as int),
{
    let columns: u16 = if count < 1 {
        1
    } else {
        count
    };
    let mut template = String::new();
    push_str(&mut template, "repeat(");
    push_chars(&mut template, &decimal_chars(columns as u64));
    push_str(&mut template, ", minmax(0, 1fr))");
    template
}

} // verus!
