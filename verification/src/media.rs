//! How images fill their boxes and where tooltips appear.
use vstd::prelude::*;

verus! {

/// How an `Img` fills its box.
#[derive(Clone, Copy, Debug, PartialEq, Eq, Structural, Hash)]
pub enum ImgFit {
    /// Fill the box, cropping the image.
    Cover,
    /// Fit inside the box, letterboxing the image.
    Contain,
}

impl Default for ImgFit {
    fn default() -> (value: Self)
        ensures
            value == ImgFit::Cover,
    {
        ImgFit::Cover
    }
}

/// The fit class for `value`; none for `Cover`.
pub open spec fn fit_class(value: ImgFit) -> Seq<char> {
    match value {
        ImgFit::Cover => ""@,
        ImgFit::Contain => "g3-img-contain"@,
    }
}

impl ImgFit {
    /// The fit class; empty for `Cover`.
    pub fn class(self) -> (text: &'static str)
        ensures
            text@ == fit_class(self),
    {
        match self {
            ImgFit::Cover => "",
            ImgFit::Contain => "g3-img-contain",
        }
    }
}

/// Where a `Tooltip` appears.
#[derive(Clone, Copy, Debug, PartialEq, Eq, Structural, Hash)]
pub enum TooltipPlacement {
    /// Above the trigger.
    Top,
    /// Below the trigger.
    Bottom,
}

impl Default for TooltipPlacement {
    fn default() -> (value: Self)
        ensures
            value == TooltipPlacement::Top,
    {
        TooltipPlacement::Top
    }
}

/// The placement name the stylesheet reads for `value`.
pub open spec fn tooltip_placement_name(value: TooltipPlacement) -> Seq<char> {
    match value {
        TooltipPlacement::Top => "top"@,
        TooltipPlacement::Bottom => "bottom"@,
    }
}

impl TooltipPlacement {
    /// The placement name the stylesheet reads.
    pub fn as_str(self) -> (text: &'static str)
        ensures
            text@ == tooltip_placement_name(self),
    {
        match self {
            TooltipPlacement::Top => "top",
            TooltipPlacement::Bottom => "bottom",
        }
    }
}

} // verus!
