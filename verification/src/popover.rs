//! Where popovers and menus open, and which of their parts are in the
//! page as they open and close.
use crate::text::same_text;
use vstd::prelude::*;

verus! {

/// Where a popover or menu opens relative to its trigger.
#[derive(Clone, Copy, Debug, PartialEq, Eq, Structural, Hash)]
pub enum PopoverPlacement {
    /// Below the trigger, aligned to its leading edge.
    BottomStart,
    /// Below the trigger, aligned to its trailing edge.
    BottomEnd,
    /// Above the trigger, aligned to its leading edge.
    TopStart,
    /// Above the trigger, aligned to its trailing edge.
    TopEnd,
}

impl Default for PopoverPlacement {
    fn default() -> (value: Self)
        ensures
            value == PopoverPlacement::BottomStart,
    {
        PopoverPlacement::BottomStart
    }
}

/// The placement name the stylesheet and script read for `value`.
pub open spec fn placement_name(value: PopoverPlacement) -> Seq<char> {
    match value {
        PopoverPlacement::BottomStart => "bottom-start"@,
        PopoverPlacement::BottomEnd => "bottom-end"@,
        PopoverPlacement::TopStart => "top-start"@,
        PopoverPlacement::TopEnd => "top-end"@,
    }
}

impl PopoverPlacement {
    /// The placement name the stylesheet and script read.
    pub fn as_str(self) -> (text: &'static str)
        ensures
            text@ == placement_name(self),
    {
        match self {
            PopoverPlacement::BottomStart => "bottom-start",
            PopoverPlacement::BottomEnd => "bottom-end",
            PopoverPlacement::TopStart => "top-start",
            PopoverPlacement::TopEnd => "top-end",
        }
    }
}

/// Which parts of a popover are kept in the page. The panel stays once it
/// has opened, so that it can animate out; the backdrop stays until the
/// exit animation after a close has run.
#[derive(Clone, Copy, Debug, PartialEq, Eq, Structural, Hash)]
pub struct PopoverPresence {
    /// The popover has been open at some point.
    pub ever_opened: bool,
    /// The backdrop is in the page.
    pub backdrop_present: bool,
}

/// The parts present after the popover becomes `open` or closed, and
/// whether a timer is asked for to take the backdrop out.
pub open spec fn followed(p: PopoverPresence, open: bool) -> (PopoverPresence, bool) {
    if open {
        (PopoverPresence { ever_opened: true, backdrop_present: true }, false)
    } else {
        (p, p.backdrop_present)
    }
}

/// The parts present after the exit timer runs out while the popover is
/// `open` or not.
pub open spec fn settled(p: PopoverPresence, open: bool) -> PopoverPresence {
    PopoverPresence { ever_opened: p.ever_opened, backdrop_present: p.backdrop_present && open }
}

impl PopoverPresence {
    /// The parts present when the popover first renders, open or not.
    pub fn new(starts_open: bool) -> (presence: Self)
        ensures
            !presence.ever_opened,
            presence.backdrop_present == starts_open,
    {
        PopoverPresence { ever_opened: false, backdrop_present: starts_open }
    }

    /// The popover became `open` or closed: opening marks it opened and
    /// brings the backdrop in; closing while the backdrop is in asks for a
    /// timer, after which `settle` takes it out.
    pub fn follow(self, open: bool) -> (next: (Self, bool))
        ensures
            next == followed(self, open),
    {
        if open {
            (PopoverPresence { ever_opened: true, backdrop_present: true }, false)
        } else {
            (self, self.backdrop_present)
        }
    }

    /// The exit timer ran out: the backdrop leaves unless the popover is
    /// `open` again.
    pub fn settle(self, open: bool) -> (next: Self)
        ensures
            next == settled(self, open),
    {
        if open {
            self
        } else {
            PopoverPresence { ever_opened: self.ever_opened, backdrop_present: false }
        }
    }

    /// Whether the layer holding the popover is in the page.
    pub fn shows_layer(self, open: bool) -> (shown: bool)
        ensures
            shown == (open || self.ever_opened || self.backdrop_present),
    {
        open || self.ever_opened || self.backdrop_present
    }

    /// Whether the panel is in the page.
    pub fn shows_panel(self, open: bool) -> (shown: bool)
        ensures
            shown == (open || self.ever_opened),
    {
        open || self.ever_opened
    }

    /// Whether the backdrop is in the page.
    pub fn shows_backdrop(self, open: bool) -> (shown: bool)
        ensures
            shown == (open || self.backdrop_present),
    {
        open || self.backdrop_present
    }
}

/// Once a popover has opened, its panel stays in the page through every
/// later close and settle; an open popover has its backdrop, and closing
/// it asks for the timer that takes the backdrop out.
pub proof fn lemma_opened_panel_stays(p: PopoverPresence, open: bool, later: bool)
    ensures
        ({
            let opened = followed(p, true).0;
            let closed = followed(opened, open).0;
            let after = settled(closed, later);
            &&& opened.ever_opened && opened.backdrop_present
            &&& closed.ever_opened && after.ever_opened
            &&& !open ==> followed(opened, open).1
        }),
{
}

/// The kind of popup a trigger announces for a popover of `role`: a menu
/// or a listbox as such, and any other popover as a dialog.
pub open spec fn popup_kind_of(role: Seq<char>) -> Seq<char> {
    if role == "menu"@ || role == "listbox"@ {
        role
    } else {
        "dialog"@
    }
}

/// The `aria-haspopup` value of a popover's trigger.
pub fn popup_kind(role: &str) -> (kind: &str)
    ensures
        kind@ == popup_kind_of(role@),
{
    if same_text(role, "menu") || same_text(role, "listbox") {
        role
    } else {
        "dialog"
    }
}

} // verus!
