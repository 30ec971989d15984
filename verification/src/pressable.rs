//! Where a tappable component goes, and the HTML type of a button.
use vstd::prelude::*;

verus! {

/// Where an item goes when activated: a route of the app's router, or
/// nothing. An absent destination leaves the component a button.
#[derive(Clone, PartialEq, Eq)]
pub struct Destination<R>(Option<R>);

impl<R> Default for Destination<R> {
    fn default() -> (destination: Self)
        ensures
            destination.route() is None,
    {
        Destination(None)
    }
}

impl<R> From<R> for Destination<R> {
    fn from(route: R) -> (destination: Self)
        ensures
            destination.route() == Some(route),
    {
        Destination(Some(route))
    }
}

impl<R> vstd::std_specs::convert::FromSpecImpl<R> for Destination<R> {
    open spec fn obeys_from_spec() -> bool {
        true
    }

    closed spec fn from_spec(route: R) -> Self {
        Destination(Some(route))
    }
}

impl<R> Destination<R> {
    /// The route held, if any.
    pub closed spec fn route(self) -> Option<R> {
        self.0
    }

    /// A destination at `route`.
    pub fn to(route: R) -> (destination: Self)
        ensures
            destination.route() == Some(route),
    {
        Destination(Some(route))
    }

    /// The target, or `None` when nothing was set.
    pub fn target(self) -> (target: Option<R>)
        ensures
            target == self.route(),
    {
        self.0
    }

    /// Whether anything was set.
    pub fn is_some(&self) -> (set: bool)
        ensures
            set == self.route() is Some,
    {
        self.0.is_some()
    }
}

/// Where a tappable component goes when activated.
#[derive(Clone, PartialEq, Eq)]
pub enum Target<R> {
    /// No navigation: a `<button>`.
    Action,
    /// A plain `<a href>`.
    Href { href: String, new_tab: bool },
    /// A link through the app's router.
    Route { to: R, new_tab: bool },
}

impl<R> Target<R> {
    /// The target of a component given an `href` and a router destination:
    /// the route wins over the `href`, and with neither it is an action.
    pub fn from_props(href: Option<String>, to: Destination<R>, new_tab: bool) -> (target: Self)
        ensures
            match to.route() {
                Some(route) => target == (Target::Route { to: route, new_tab }),
                None => match href {
                    Some(h) => target == (Target::<R>::Href { href: h, new_tab }),
                    None => target is Action,
                },
            },
    {
        match (to.target(), href) {
            (Some(route), _) => Target::Route { to: route, new_tab },
            (None, Some(h)) => Target::Href { href: h, new_tab },
            (None, None) => Target::Action,
        }
    }

    /// Whether the component renders as a link.
    pub fn is_link(&self) -> (link: bool)
        ensures
            link == !(self is Action),
    {
        !matches!(self, Target::Action)
    }
}

/// HTML `type` of a `<button>`.
#[derive(Clone, Copy, Debug, PartialEq, Eq, Structural, Hash)]
pub enum ButtonType {
    /// A plain button that does nothing on its own.
    Button,
    /// Submits its form.
    Submit,
    /// Resets its form.
    Reset,
}

impl Default for ButtonType {
    fn default() -> (value: Self)
        ensures
            value == ButtonType::Button,
    {
        ButtonType::Button
    }
}

/// The HTML `type` attribute value of `value`.
pub open spec fn button_type_name(value: ButtonType) -> Seq<char> {
    match value {
        ButtonType::Button => "button"@,
        ButtonType::Submit => "submit"@,
        ButtonType::Reset => "reset"@,
    }
}

impl ButtonType {
    /// The HTML `type` attribute value.
    pub fn as_str(self) -> (text: &'static str)
        ensures
            text@ == button_type_name(self),
    {
        match self {
            ButtonType::Button => "button",
            ButtonType::Submit => "submit",
            ButtonType::Reset => "reset",
        }
    }
}

} // verus!
