//! How reorderable lists are laid out, where their handles sit, and where
//! the keyboard and a drag move a row.
use crate::text::{decimal, decimal_chars, push_chars, push_str};
use vstd::prelude::*;

verus! {

/// Which edge of a row holds a reorder handle.
#[derive(Clone, Copy, Debug, PartialEq, Eq, Structural, Hash)]
pub enum ReorderHandlePosition {
    /// Leading edge.
    Start,
    /// Trailing edge, matching Ionic's default.
    End,
}

impl Default for ReorderHandlePosition {
    fn default() -> (value: Self)
        ensures
            value == ReorderHandlePosition::Start,
    {
        ReorderHandlePosition::Start
    }
}

/// How the items of a reorderable list are laid out, which decides where a dragged item lands and how the others make room.
#[derive(Clone, Copy, Debug, PartialEq, Eq, Structural, Hash)]
pub enum ReorderLayout {
    /// One item per row, top to bottom.
    Rows,
    /// Items that wrap across rows in reading order, such as the cells of a grid.
    Grid,
}

impl Default for ReorderLayout {
    fn default() -> (value: Self)
        ensures
            value == ReorderLayout::Rows,
    {
        ReorderLayout::Rows
    }
}

/// The layout name the reorder script reads for `value`.
pub open spec fn layout_name(value: ReorderLayout) -> Seq<char> {
    match value {
        ReorderLayout::Rows => "rows"@,
        ReorderLayout::Grid => "grid"@,
    }
}

impl ReorderLayout {
    /// The layout name the reorder script reads.
    pub fn as_str(self) -> (text: &'static str)
        ensures
            text@ == layout_name(self),
    {
        match self {
            ReorderLayout::Rows => "rows",
            ReorderLayout::Grid => "grid",
        }
    }
}

/// The keys a reorder handle answers.
#[derive(Clone, Copy, Debug, PartialEq, Eq, Structural, Hash)]
pub enum ReorderKey {
    /// Arrow up.
    Up,
    /// Arrow down.
    Down,
    /// Arrow left.
    Left,
    /// Arrow right.
    Right,
    /// Any other key.
    Other,
}

/// Where `key` moves the row at `index` of `count` rows: up (or left, in a
/// grid) one place back, down (or right, in a grid) one place on, and
/// nowhere past either end or for any other key.
pub open spec fn key_destination(key: ReorderKey, grid: bool, index: int, count: int) -> Option<int> {
    let back = key == ReorderKey::Up || (grid && key == ReorderKey::Left);
    let on = key == ReorderKey::Down || (grid && key == ReorderKey::Right);
    if back && index > 0 {
        Some(index - 1)
    } else if on && index + 1 < count {
        Some(index + 1)
    } else {
        None
    }
}

/// Where `key` moves the row at `index` of a list of `count` rows, in a
/// grid layout when `grid`; `None` when the key moves nothing.
pub fn handle_key_move(key: ReorderKey, grid: bool, index: usize, count: usize) -> (to: Option<usize>)
    ensures
        match to {
            Some(t) => key_destination(key, grid, index as int, count as int) == Some(t as int),
            None => key_destination(key, grid, index as int, count as int) is None,
        },
{
    let back = key == ReorderKey::Up || (grid && key == ReorderKey::Left);
    let on = key == ReorderKey::Down || (grid && key == ReorderKey::Right);
    if back && index > 0 {
        Some(index - 1)
    } else if on && index < count && count - index > 1 {
        Some(index + 1)
    } else {
        None
    }
}

/// What is announced after a row moves to `to` of `count`: its new place,
/// counted from one, over the count.
pub open spec fn move_announcement_text(to: nat, count: nat) -> Seq<char> {
    decimal(to + 1) + " / "@ + decimal(count)
}

/// The announcement of a row's new place, `to` counted from zero.
pub fn move_announcement(to: usize, count: usize) -> (text: String)
    requires
        to < count,
    ensures
        text@ == move_announcement_text(to as nat, count as nat),
{
    let mut text = String::new();
    push_chars(&mut text, &decimal_chars((to + 1) as u64));
    push_str(&mut text, " / ");
    push_chars(&mut text, &decimal_chars(count as u64));
    proof {
        assert(text@ =~= move_announcement_text(to as nat, count as nat));
    }
    text
}

/// Whether a drop reported by the drag script is passed on as a move: only
/// one of the kind `reorder`, while reordering is on, that changes the order.
pub fn accepts_drop(is_reorder: bool, disabled: bool, from: usize, to: usize) -> (accepted: bool)
    ensures
        accepted == (is_reorder && !disabled && from != to),
{
    is_reorder && !disabled && from != to
}

/// A move by key stays in the list and goes one place.
pub proof fn lemma_key_moves_one_place(key: ReorderKey, grid: bool, index: int, count: int)
    requires
        0 <= index < count,
    ensures
        key_destination(key, grid, index, count) matches Some(t) ==> 0 <= t < count && (t
            == index - 1 || t == index + 1),
        key == ReorderKey::Other ==> key_destination(key, grid, index, count) is None,
        !grid && (key == ReorderKey::Left || key == ReorderKey::Right) ==> key_destination(
            key,
            grid,
            index,
            count,
        ) is None,
{
}

/// Where each key sends the row at `index` of `count`: down goes one
/// place on from every row but the last, up one place back from every row
/// but the first; in a grid right and left do the same, elsewhere they and
/// any other key move nothing.
pub proof fn lemma_key_destinations(grid: bool, index: int, count: int)
    requires
        0 <= index < count,
    ensures
        index + 1 < count ==> key_destination(ReorderKey::Down, grid, index, count) == Some(index + 1),
        index + 1 == count ==> key_destination(ReorderKey::Down, grid, index, count) is None,
        index > 0 ==> key_destination(ReorderKey::Up, grid, index, count) == Some(index - 1),
        index == 0 ==> key_destination(ReorderKey::Up, grid, index, count) is None,
        grid ==> key_destination(ReorderKey::Right, grid, index, count) == key_destination(
            ReorderKey::Down,
            grid,
            index,
            count,
        ),
        grid ==> key_destination(ReorderKey::Left, grid, index, count) == key_destination(
            ReorderKey::Up,
            grid,
            index,
            count,
        ),
        !grid ==> key_destination(ReorderKey::Right, grid, index, count) is None,
        !grid ==> key_destination(ReorderKey::Left, grid, index, count) is None,
        key_destination(ReorderKey::Other, grid, index, count) is None,
{
}

} // verus!
