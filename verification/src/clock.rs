//! The geometry and labels of the clock face of a Material time picker.
use crate::text::{decimal, decimal_chars, padded_decimal, push_chars, push_padded};
use vstd::prelude::*;

verus! {

/// Radius of the dial's outer ring, in CSS pixels.
pub const OUTER_RADIUS: u32 = 100;

/// Radius of the dial's inner ring, in CSS pixels.
pub const INNER_RADIUS: u32 = 64;

/// What a clock dial picks.
#[derive(Clone, Copy, Debug, PartialEq, Eq, Structural)]
pub enum DialMode {
    /// Hours 1 to 12.
    Hours12,
    /// Hours 0 to 23: 1 to 12 on the outer ring, 13 to 00 on the inner.
    Hours24,
    /// Minutes 0 to 59, labelled every five.
    Minutes,
}

/// The name by which the dial's script knows `mode`.
pub open spec fn mode_name(mode: DialMode) -> Seq<char> {
    match mode {
        DialMode::Hours12 => "hours12"@,
        DialMode::Hours24 => "hours24"@,
        DialMode::Minutes => "minutes"@,
    }
}

/// Where `value` sits on the dial in `mode`: its angle in degrees clockwise
/// from the top, and its distance from the centre.
pub open spec fn dial_position(mode: DialMode, value: int) -> (int, int) {
    match mode {
        DialMode::Hours12 => ((value % 12) * 30, OUTER_RADIUS as int),
        DialMode::Hours24 => if 1 <= value <= 12 {
            ((value % 12) * 30, OUTER_RADIUS as int)
        } else {
            ((value % 12) * 30, INNER_RADIUS as int)
        },
        DialMode::Minutes => (value * 6, OUTER_RADIUS as int),
    }
}

/// The numbers printed on the dial in `mode`, with the values they pick.
pub open spec fn dial_marks(mode: DialMode) -> Seq<(int, Seq<char>)> {
    match mode {
        DialMode::Hours12 => Seq::new(12, |i: int| (i + 1, decimal((i + 1) as nat))),
        DialMode::Hours24 => Seq::new(
            24,
            |i: int|
                if i < 12 {
                    (i + 1, decimal((i + 1) as nat))
                } else {
                    ((i + 1) % 24, padded_decimal((i + 1) % 24, 2))
                },
        ),
        DialMode::Minutes => Seq::new(12, |i: int| (i * 5, padded_decimal(i * 5, 2))),
    }
}

impl DialMode {
    /// How the dial's script knows the mode.
    pub fn as_str(self) -> (name: &'static str)
        ensures
            name@ == mode_name(self),
    {
        match self {
            DialMode::Hours12 => "hours12",
            DialMode::Hours24 => "hours24",
            DialMode::Minutes => "minutes",
        }
    }
}

/// Where `value` sits on the dial: its angle in degrees clockwise from the
/// top, and its distance from the centre in CSS pixels.
pub fn position(mode: DialMode, value: u8) -> (place: (u32, u32))
    ensures
        place.0 == dial_position(mode, value as int).0,
        place.1 == dial_position(mode, value as int).1,
{
    match mode {
        DialMode::Hours12 => ((value % 12) as u32 * 30, OUTER_RADIUS),
        DialMode::Hours24 => if 1 <= value && value <= 12 {
            ((value % 12) as u32 * 30, OUTER_RADIUS)
        } else {
            ((value % 12) as u32 * 30, INNER_RADIUS)
        },
        DialMode::Minutes => (value as u32 * 6, OUTER_RADIUS),
    }
}

/// `n` in decimal, zero-padded to `width` characters.
fn padded_string(n: u8, width: usize) -> (text: String)
    ensures
        text@ == padded_decimal(n as int, width as int),
{
    let mut text = String::new();
    push_padded(&mut text, n as i64, width);
    proof {
        assert(text@ =~= padded_decimal(n as int, width as int));
    }
    text
}

/// The numbers printed on the dial, with their values.
pub fn marks(mode: DialMode) -> (marks: Vec<(u8, String)>)
    ensures
        marks@.map_values(|m: (u8, String)| (m.0 as int, m.1@)) == dial_marks(mode),
{
    let mut marks: Vec<(u8, String)> = Vec::new();
    let count: u8 = match mode {
        DialMode::Hours24 => 24,
        _ => 12,
    };
    let mut i: u8 = 0;
    while i < count
        invariant
            i <= count,
            count == dial_marks(mode).len(),
            marks@.map_values(|m: (u8, String)| (m.0 as int, m.1@)) == dial_marks(mode).take(
                i as int,
            ),
        decreases count - i,
    {
        let mark: (u8, String) = match mode {
            DialMode::Hours12 => {
                let mut text = String::new();
                push_chars(&mut text, &decimal_chars(i as u64 + 1));
                (i + 1, text)
            },
            DialMode::Hours24 => if i < 12 {
                let mut text = String::new();
                push_chars(&mut text, &decimal_chars(i as u64 + 1));
                (i + 1, text)
            } else {
                ((i + 1) % 24, padded_string((i + 1) % 24, 2))
            },
            DialMode::Minutes => (i * 5, padded_string(i * 5, 2)),
        };
        let ghost before = marks@;
        marks.push(mark);
        proof {
            assert(marks@.map_values(|m: (u8, String)| (m.0 as int, m.1@)) =~= before.map_values(
                |m: (u8, String)| (m.0 as int, m.1@),
            ).push((mark.0 as int, mark.1@)));
            assert(dial_marks(mode).take(i + 1) =~= dial_marks(mode).take(i as int).push(
                dial_marks(mode)[i as int],
            ));
        }
        i = i + 1;
    }
    proof {
        assert(dial_marks(mode).take(count as int) =~= dial_marks(mode));
    }
    marks
}

/// On a 24-hour dial, 1 to 12 sit on the outer ring and 0 and 13 to 23 on
/// the inner one, each hour at its twelfth of the turn, so no two hours
/// share a place; on a 12-hour dial the hours 1 to 12, and on a minute dial
/// the minutes 0 to 59, each have a place of their own on the outer ring.
pub proof fn lemma_every_value_has_its_own_place()
    ensures
        forall|v: int| 1 <= v <= 12 ==> #[trigger] dial_position(DialMode::Hours24, v).1 == OUTER_RADIUS,
        forall|v: int|
            (v == 0 || 13 <= v <= 23) ==> #[trigger] dial_position(DialMode::Hours24, v).1 == INNER_RADIUS,
        forall|v: int| 0 <= v < 24 ==> #[trigger] dial_position(DialMode::Hours24, v).0 == (v % 12) * 30,
        forall|a: int, b: int|
            0 <= a < 24 && 0 <= b < 24 && a != b ==> #[trigger] dial_position(DialMode::Hours24, a)
                != #[trigger] dial_position(DialMode::Hours24, b),
        forall|a: int, b: int|
            1 <= a <= 12 && 1 <= b <= 12 && a != b ==> #[trigger] dial_position(DialMode::Hours12, a)
                != #[trigger] dial_position(DialMode::Hours12, b),
        forall|a: int, b: int|
            0 <= a < 60 && 0 <= b < 60 && a != b ==> #[trigger] dial_position(DialMode::Minutes, a)
                != #[trigger] dial_position(DialMode::Minutes, b),
{
    assert forall|a: int, b: int|
        0 <= a < 24 && 0 <= b < 24 && a != b implies #[trigger] dial_position(DialMode::Hours24, a)
        != #[trigger] dial_position(DialMode::Hours24, b) by {
        if a % 12 == b % 12 {
            assert(a == b + 12 || b == a + 12);
        }
    }
    assert forall|a: int, b: int|
        1 <= a <= 12 && 1 <= b <= 12 && a != b implies #[trigger] dial_position(DialMode::Hours12, a)
        != #[trigger] dial_position(DialMode::Hours12, b) by {
        if a % 12 == b % 12 {
            assert(a == b + 12 || b == a + 12);
        }
    }
}

} // verus!
