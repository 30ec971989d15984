//! What a back button does when pressed.
use vstd::prelude::*;

verus! {

/// What pressing a back button does.
#[derive(Clone, Copy, Debug, PartialEq, Eq, Structural, Hash)]
pub enum BackAction {
    /// The press goes to the handler given, and nothing else happens.
    Handler,
    /// Nothing: there is no router to go back in.
    Nothing,
    /// The router goes back one entry.
    GoBack,
    /// The router replaces the current page by the fallback destination.
    Fallback,
}

/// What a back button does: a handler given takes the press; otherwise,
/// with a router, it goes back where there is history, and else to the
/// fallback destination where one is set; otherwise nothing.
pub fn back_action(has_handler: bool, has_router: bool, can_go_back: bool, has_fallback: bool) -> (action: BackAction)
    ensures
        action == (if has_handler {
            BackAction::Handler
        } else if !has_router {
            BackAction::Nothing
        } else if can_go_back {
            BackAction::GoBack
        } else if has_fallback {
            BackAction::Fallback
        } else {
            BackAction::Nothing
        }),
{
    if has_handler {
        return BackAction::Handler;
    }
    if !has_router {
        return BackAction::Nothing;
    }
    if can_go_back {
        BackAction::GoBack
    } else if has_fallback {
        BackAction::Fallback
    } else {
        BackAction::Nothing
    }
}

} // verus!
