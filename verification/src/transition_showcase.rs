//! The route-transition showcase: its screens, their titles, and the rows
//! of its ratings tabs.
use vstd::prelude::*;

verus! {

/// The screens of the showcase; `Ratings` carries the chosen tab.
#[derive(Clone, Copy, Debug, PartialEq, Eq, Structural)]
pub enum ShowcaseScreen {
    Home,
    Detail,
    Queue,
    Ratings(u8),
    Profile,
    Article,
    ArticleDetail,
}

/// The header title of `screen`.
pub open spec fn showcase_title(screen: ShowcaseScreen) -> Seq<char> {
    match screen {
        ShowcaseScreen::Detail => "Round details"@,
        ShowcaseScreen::Profile => "Profile"@,
        ShowcaseScreen::Article | ShowcaseScreen::ArticleDetail => "Club stories"@,
        ShowcaseScreen::Home | ShowcaseScreen::Queue | ShowcaseScreen::Ratings(_) => "Fairway"@,
    }
}

/// The header title of a screen.
pub fn screen_title(screen: ShowcaseScreen) -> (title: &'static str)
    ensures
        title@ == showcase_title(screen),
{
    match screen {
        ShowcaseScreen::Detail => "Round details",
        ShowcaseScreen::Profile => "Profile",
        ShowcaseScreen::Article | ShowcaseScreen::ArticleDetail => "Club stories",
        ShowcaseScreen::Home | ShowcaseScreen::Queue | ShowcaseScreen::Ratings(_) => "Fairway",
    }
}

/// The names and scores listed on ratings tab `tab`: players on tab 1,
/// courses on tab 2, and albums on any other tab.
pub open spec fn ratings_of(tab: int) -> Seq<(Seq<char>, Seq<char>)> {
    if tab == 1 {
        seq![("Jordan Diaz"@, "9.2"@), ("Sam Meyer"@, "8.8"@), ("Alex Lin"@, "8.6"@)]
    } else if tab == 2 {
        seq![("Pebble Creek"@, "-4"@), ("Pine Hollow"@, "-2"@), ("Ocean Links"@, "E"@)]
    } else {
        seq![("The Quiet Course"@, "8.9"@), ("Afterglow"@, "8.7"@), ("Blue Static"@, "8.5"@)]
    }
}

/// The rows of a ratings tab: a name and its score.
pub fn rating_rows(tab: u8) -> (rows: [(&'static str, &'static str); 3])
    ensures
        rows@.map_values(|r: (&str, &str)| (r.0@, r.1@)) == ratings_of(tab as int),
{
    let rows = match tab {
        1 => [("Jordan Diaz", "9.2"), ("Sam Meyer", "8.8"), ("Alex Lin", "8.6")],
        2 => [("Pebble Creek", "-4"), ("Pine Hollow", "-2"), ("Ocean Links", "E")],
        _ => [("The Quiet Course", "8.9"), ("Afterglow", "8.7"), ("Blue Static", "8.5")],
    };
    proof {
        assert(rows@.map_values(|r: (&str, &str)| (r.0@, r.1@)) =~= ratings_of(tab as int));
    }
    rows
}

} // verus!
