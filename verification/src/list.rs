//! How list rows are separated.
use crate::date_picker::ComponentMode;
use crate::accordion::{str_views, without_text};
use crate::text::same_text;
use vstd::prelude::*;

verus! {

/// How separators are drawn between list rows.
#[derive(Clone, Copy, Debug, PartialEq, Eq, Structural, Hash)]
pub enum ListLines {
    /// Separators span the full width.
    Full,
    /// Separators start at the text, clear of leading icons.
    Inset,
    /// No separators.
    Hidden,
}

impl Default for ListLines {
    fn default() -> (value: Self)
        ensures
            value == ListLines::Inset,
    {
        ListLines::Inset
    }
}

/// The value the stylesheet reads for `value`.
pub open spec fn lines_name(value: ListLines) -> Seq<char> {
    match value {
        ListLines::Full => "full"@,
        ListLines::Inset => "inset"@,
        ListLines::Hidden => "none"@,
    }
}

impl ListLines {
    /// The value the stylesheet reads for these lines.
    pub fn as_str(self) -> (text: &'static str)
        ensures
            text@ == lines_name(self),
    {
        match self {
            ListLines::Full => "full",
            ListLines::Inset => "inset",
            ListLines::Hidden => "none",
        }
    }
}

/// How a `List` sits on the page. Apart from `EdgeToEdge`, these match `CardVariant`: the rows sit in a rounded group, like an iOS settings screen, drawn the way a card with that variant is.
#[derive(Clone, Copy, Debug, PartialEq, Eq, Structural, Hash)]
pub enum ListVariant {
    /// Rows span the full width of the screen, with no group around them, like a phone inbox or a settings page on Android. Put the list in `Content` with `padding: false` so nothing insets it; a sheet or drawer takes the same `padding` prop.
    EdgeToEdge,
    /// A rounded group lifted off the page with a shadow.
    Raised,
    /// A rounded group outlined by a border.
    Flat,
    /// A rounded group on a tinted surface.
    Filled,
}

impl Default for ListVariant {
    fn default() -> (value: Self)
        ensures
            value == ListVariant::EdgeToEdge,
    {
        ListVariant::EdgeToEdge
    }
}

/// The group classes for `value`; none for `EdgeToEdge`.
pub open spec fn variant_class(value: ListVariant) -> Seq<char> {
    match value {
        ListVariant::EdgeToEdge => ""@,
        ListVariant::Raised => "g3-list-grouped"@,
        ListVariant::Flat => "g3-list-grouped g3-list-flat"@,
        ListVariant::Filled => "g3-list-grouped g3-list-filled"@,
    }
}

impl ListVariant {
    /// The group classes; empty for `EdgeToEdge`.
    pub fn class(self) -> (text: &'static str)
        ensures
            text@ == variant_class(self),
    {
        match self {
            ListVariant::EdgeToEdge => "",
            ListVariant::Raised => "g3-list-grouped",
            ListVariant::Flat => "g3-list-grouped g3-list-flat",
            ListVariant::Filled => "g3-list-grouped g3-list-filled",
        }
    }
}

/// Whether an `Item` shows a trailing chevron.
#[derive(Clone, Copy, Debug, PartialEq, Eq, Structural, Hash)]
pub enum ItemDetail {
    /// Show it for tappable rows on iOS, as iOS does.
    Auto,
    /// Always show it.
    Show,
    /// Never show it.
    Hide,
}

impl Default for ItemDetail {
    fn default() -> (value: Self)
        ensures
            value == ItemDetail::Auto,
    {
        ItemDetail::Auto
    }
}

/// Whether a row shows a trailing chevron: always or never when set so,
/// and otherwise for tappable rows in the iOS look.
pub open spec fn chevron_shown(detail: ItemDetail, interactive: bool, mode: ComponentMode) -> bool {
    match detail {
        ItemDetail::Show => true,
        ItemDetail::Hide => false,
        ItemDetail::Auto => interactive && mode == ComponentMode::Ios,
    }
}

impl ItemDetail {
    /// Whether a row with this setting shows a trailing chevron.
    pub fn shows_chevron(self, interactive: bool, mode: ComponentMode) -> (shown: bool)
        ensures
            shown == chevron_shown(self, interactive, mode),
    {
        match self {
            ItemDetail::Show => true,
            ItemDetail::Hide => false,
            ItemDetail::Auto => interactive && mode == ComponentMode::Ios,
        }
    }
}

/// The separator class of a row whose lines are set to `lines`, if set.
pub open spec fn item_lines_class(lines: Option<ListLines>) -> Seq<char> {
    match lines {
        Some(ListLines::Full) => "g3-item-lines-full"@,
        Some(ListLines::Inset) => "g3-item-lines-inset"@,
        Some(ListLines::Hidden) => "g3-item-lines-none"@,
        None => Seq::empty(),
    }
}

/// The separator class of a row.
pub fn item_lines_class_of(lines: Option<ListLines>) -> (class: &'static str)
    ensures
        class@ == item_lines_class(lines),
{
    match lines {
        Some(ListLines::Full) => "g3-item-lines-full",
        Some(ListLines::Inset) => "g3-item-lines-inset",
        Some(ListLines::Hidden) => "g3-item-lines-none",
        None => {
            proof {
                reveal_strlit("");
            }
            ""
        },
    }
}

/// How a row of a list behaves and what it shows, from what it was given.
#[derive(Clone, Copy, Debug, PartialEq, Eq, Structural, Hash)]
pub struct ItemShape {
    /// The row reacts to presses: it has a press handler, is a link, or is
    /// a checkable row.
    pub interactive: bool,
    /// A trailing chevron is shown.
    pub detail: bool,
    /// Only the row's text is the action, stretched over the row, so that
    /// the controls at its end stay controls of their own.
    pub split: bool,
}

/// The shape of a row: `pressable` when it has a press handler, `link` when
/// it goes somewhere, `checkable` when it carries a check state, and
/// `has_end` when something stands at its end. A checkable row shows no
/// chevron and is never split.
pub open spec fn item_shape_of(
    pressable: bool,
    link: bool,
    checkable: bool,
    has_end: bool,
    detail: ItemDetail,
    mode: ComponentMode,
) -> ItemShape {
    let interactive = pressable || link || checkable;
    ItemShape {
        interactive,
        detail: !checkable && chevron_shown(detail, interactive, mode),
        split: interactive && !checkable && has_end,
    }
}

/// The shape of a row.
pub fn item_shape(
    pressable: bool,
    link: bool,
    checkable: bool,
    has_end: bool,
    detail: ItemDetail,
    mode: ComponentMode,
) -> (shape: ItemShape)
    ensures
        shape == item_shape_of(pressable, link, checkable, has_end, detail, mode),
{
    let interactive = pressable || link || checkable;
    let detail = !checkable && detail.shows_chevron(interactive, mode);
    // A button in a button is invalid, so controls at the end of a tappable
    // row stay beside its action rather than inside it.
    let split = interactive && !checkable && has_end;
    ItemShape { interactive, detail, split }
}

/// The rows left after deleting `row` from `rows`: every row with that
/// text goes, and the others keep their order.
pub fn without_row<'a>(rows: &Vec<&'a str>, row: &str) -> (kept: Vec<&'a str>)
    ensures
        str_views(kept@) == without_text(str_views(rows@), row@),
{
    let ghost views = str_views(rows@);
    let mut kept: Vec<&'a str> = Vec::new();
    let mut k: usize = 0;
    while k < rows.len()
        invariant
            k <= rows.len(),
            views == str_views(rows@),
            str_views(kept@) == without_text(views.subrange(0, k as int), row@),
        decreases rows.len() - k,
    {
        let ghost p = views.subrange(0, k + 1);
        proof {
            assert(p.drop_last() =~= views.subrange(0, k as int));
            assert(p.last() == rows@[k as int]@);
        }
        if !same_text(rows[k], row) {
            kept.push(rows[k]);
            proof {
                assert(str_views(kept@) =~= without_text(views.subrange(0, k as int), row@).push(
                    rows@[k as int]@,
                ));
            }
        }
        k = k + 1;
    }
    proof {
        assert(views.subrange(0, rows.len() as int) =~= views);
    }
    kept
}

} // verus!
