//! How cards separate themselves from the page, and how a card acts when
//! pressed.
use vstd::prelude::*;

verus! {

/// How a `Card` separates itself from the page.
#[derive(Clone, Copy, Debug, PartialEq, Eq, Structural, Hash)]
pub enum CardVariant {
    /// Lifted off the page with a shadow.
    Raised,
    /// Level with the page, outlined by a border instead of a shadow.
    Flat,
    /// Level with the page on a tinted surface, for cards grouped inside another surface.
    Filled,
}

impl Default for CardVariant {
    fn default() -> (value: Self)
        ensures
            value == CardVariant::Raised,
    {
        CardVariant::Raised
    }
}

/// The variant class for `value`; none for `Raised`.
pub open spec fn card_variant_class(value: CardVariant) -> Seq<char> {
    match value {
        CardVariant::Raised => ""@,
        CardVariant::Flat => "g3-card-flat"@,
        CardVariant::Filled => "g3-card-filled"@,
    }
}

impl CardVariant {
    /// The variant class; empty for `Raised`.
    pub fn class(self) -> (text: &'static str)
        ensures
            text@ == card_variant_class(self),
    {
        match self {
            CardVariant::Raised => "",
            CardVariant::Flat => "g3-card-flat",
            CardVariant::Filled => "g3-card-filled",
        }
    }
}

/// How a card acts and what it carries, from what it was given.
#[derive(Clone, Copy, Debug, PartialEq, Eq, Structural, Hash)]
pub struct CardShape {
    /// The card reacts to presses: it has a press handler, a route or an
    /// `href`.
    pub interactive: bool,
    /// The `aria-pressed` state of its action, for a card that is a toggle
    /// button rather than a link.
    pub pressed: Option<bool>,
    /// Its action carries the given `aria-label`, as it has no title to
    /// name it.
    pub labelled_action: bool,
    /// The title is the action, stretched over the card.
    pub action_on_title: bool,
    /// An untitled action covers the card.
    pub untitled_action: bool,
    /// The card has a header row.
    pub header: bool,
    /// The card is marked `aria-disabled`.
    pub aria_disabled: bool,
}

/// The shape of a card given whether it has a press handler, a route, an
/// `href`, a title that is not empty, a subtitle, something at its end and
/// an accessible name, and whether it is selected and disabled.
pub open spec fn card_shape_of(
    pressable: bool,
    route: bool,
    href: bool,
    title: bool,
    subtitle: bool,
    end: bool,
    aria_label: bool,
    selected: bool,
    disabled: bool,
) -> CardShape {
    let interactive = pressable || route || href;
    let link = route || href;
    CardShape {
        interactive,
        pressed: if interactive && !link {
            Some(selected)
        } else {
            None
        },
        labelled_action: !title && aria_label,
        action_on_title: interactive && title,
        untitled_action: interactive && !title,
        header: title || subtitle || end,
        aria_disabled: interactive && disabled,
    }
}

/// The shape of a card.
pub fn card_shape(
    pressable: bool,
    route: bool,
    href: bool,
    title: bool,
    subtitle: bool,
    end: bool,
    aria_label: bool,
    selected: bool,
    disabled: bool,
) -> (shape: CardShape)
    ensures
        shape == card_shape_of(
            pressable,
            route,
            href,
            title,
            subtitle,
            end,
            aria_label,
            selected,
            disabled,
        ),
{
    let interactive = pressable || route || href;
    // A route wins over an href, and either makes the card a link.
    let link = route || href;
    CardShape {
        interactive,
        pressed: if interactive && !link {
            Some(selected)
        } else {
            None
        },
        labelled_action: !title && aria_label,
        action_on_title: interactive && title,
        untitled_action: interactive && !title,
        header: title || subtitle || end,
        aria_disabled: interactive && disabled,
    }
}

/// An interactive card has exactly one action, on its title or covering
/// it; a card that is not interactive has none.
pub proof fn lemma_one_action(
    pressable: bool,
    route: bool,
    href: bool,
    title: bool,
    subtitle: bool,
    end: bool,
    aria_label: bool,
    selected: bool,
    disabled: bool,
)
    ensures
        ({
            let shape = card_shape_of(
                pressable,
                route,
                href,
                title,
                subtitle,
                end,
                aria_label,
                selected,
                disabled,
            );
            &&& shape.interactive ==> (shape.action_on_title != shape.untitled_action)
            &&& !shape.interactive ==> !shape.action_on_title && !shape.untitled_action
                && shape.pressed is None
        }),
{
}

} // verus!
