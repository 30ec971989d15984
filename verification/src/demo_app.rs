//! The sample app's own rules: screen titles, score colours, and the rows of
//! its activity list.
use crate::color::{color_class, Color};
use vstd::prelude::*;

verus! {

/// The screens of the sample app.
#[derive(Clone, Copy, Debug, PartialEq, Eq, Structural)]
pub enum Screen {
    Today,
    Book,
    Activity,
    Profile,
}

/// The title of `screen`.
pub open spec fn screen_name(screen: Screen) -> Seq<char> {
    match screen {
        Screen::Today => "Today"@,
        Screen::Book => "Book a tee time"@,
        Screen::Activity => "Activity"@,
        Screen::Profile => "Profile"@,
    }
}

impl Screen {
    /// The screen's title.
    pub fn title(self) -> (title: &'static str)
        ensures
            title@ == screen_name(self),
    {
        match self {
            Screen::Today => "Today",
            Screen::Book => "Book a tee time",
            Screen::Activity => "Activity",
            Screen::Profile => "Profile",
        }
    }
}

/// The colour class of a hole's score: success under par, warning over it,
/// none at par.
pub open spec fn score_class(strokes: int, par: int) -> Option<Seq<char>> {
    if strokes < par {
        Some(color_class(Color::Success))
    } else if strokes == par {
        None
    } else {
        Some(color_class(Color::Warning))
    }
}

/// The colour class of a hole's score against its par.
pub fn score_color(strokes: u8, par: u8) -> (class: Option<&'static str>)
    ensures
        match class {
            Some(c) => score_class(strokes as int, par as int) == Some(c@),
            None => score_class(strokes as int, par as int) is None,
        },
{
    if strokes < par {
        Some(Color::Success.as_str())
    } else if strokes == par {
        None
    } else {
        Some(Color::Warning.as_str())
    }
}

/// The first position of `x` in `s`, if it occurs.
pub open spec fn first_position(s: Seq<usize>, x: usize) -> Option<int>
    decreases s.len(),
{
    if s.len() == 0 {
        None
    } else if s[0] == x {
        Some(0)
    } else {
        match first_position(s.drop_first(), x) {
            Some(i) => Some(i + 1),
            None => None,
        }
    }
}

/// Where `x` first occurs in `s`.
fn position_of(s: &Vec<usize>, x: usize) -> (at: Option<usize>)
    ensures
        match at {
            Some(i) => first_position(s@, x) == Some(i as int),
            None => first_position(s@, x) is None,
        },
{
    let mut i: usize = 0;
    proof {
        assert(s@.subrange(0, s.len() as int) =~= s@);
    }
    while i < s.len()
        invariant
            i <= s.len(),
            first_position(s@, x) == match first_position(s@.subrange(i as int, s.len() as int), x) {
                Some(k) => Some(k + i),
                None => None,
            },
        decreases s.len() - i,
    {
        let ghost rest = s@.subrange(i as int, s.len() as int);
        proof {
            assert(rest.drop_first() =~= s@.subrange(i + 1, s.len() as int));
        }
        if s[i] == x {
            return Some(i);
        }
        i = i + 1;
    }
    None
}

/// Taking the row numbered `row` off the activity list: it leaves `rows`
/// (its first occurrence) and is put at the end of `gone`; a row not on the
/// list leaves both as they are.
pub fn take_row(rows: &Vec<usize>, gone: &Vec<usize>, row: usize) -> (next: (Vec<usize>, Vec<usize>))
    ensures
        match first_position(rows@, row) {
            Some(at) => next.0@ == rows@.remove(at) && next.1@ == gone@.push(row),
            None => next.0@ == rows@ && next.1@ == gone@,
        },
{
    let mut kept = rows.clone();
    let mut taken = gone.clone();
    match position_of(rows, row) {
        Some(at) => {
            proof {
                lemma_first_position_in(rows@, row);
            }
            let removed = kept.remove(at);
            taken.push(removed);
        },
        None => {},
    }
    (kept, taken)
}

/// A first position lies in the sequence and holds the value.
proof fn lemma_first_position_in(s: Seq<usize>, x: usize)
    ensures
        first_position(s, x) matches Some(i) ==> 0 <= i < s.len() && s[i] == x,
    decreases s.len(),
{
    if s.len() > 0 {
        lemma_first_position_in(s.drop_first(), x);
    }
}

/// Whether `s` is in ascending order.
pub open spec fn ascending(s: Seq<usize>) -> bool {
    forall|i: int, j: int| 0 <= i < j < s.len() ==> s[i] <= s[j]
}

/// `sorted` with `x` inserted after every element not greater than it.
fn insert_sorted(sorted: &mut Vec<usize>, x: usize)
    requires
        ascending(old(sorted)@),
    ensures
        ascending(final(sorted)@),
        final(sorted)@.to_multiset() == old(sorted)@.to_multiset().insert(x),
{
    let mut p: usize = 0;
    while p < sorted.len() && sorted[p] <= x
        invariant
            p <= sorted.len(),
            sorted@ == old(sorted)@,
            forall|k: int| 0 <= k < p ==> sorted@[k] <= x,
        decreases sorted.len() - p,
    {
        p = p + 1;
    }
    let ghost before = sorted@;
    sorted.insert(p, x);
    proof {
        broadcast use vstd::seq_lib::group_to_multiset_ensures;
        assert(sorted@ == before.insert(p as int, x));
        assert forall|i: int, j: int| 0 <= i < j < sorted@.len() implies sorted@[i] <= sorted@[j] by {
            if j < p {
            } else if j == p {
            } else if i < p {
                assert(before[i] <= x);
                assert(x < before[p as int] || p == before.len());
                assert(before[i] <= before[j - 1]);
            } else if i == p {
                assert(x < before[p as int]);
                assert(before[p as int] <= before[j - 1]);
            } else {
            }
        }
    }
}

/// Bringing taken rows back: the rows on the list and those taken, in
/// ascending order of their numbers, which is the order the list started
/// in.
pub fn restore_rows(rows: &Vec<usize>, gone: &Vec<usize>) -> (all: Vec<usize>)
    ensures
        ascending(all@),
        all@.to_multiset() == (gone@ + rows@).to_multiset(),
{
    let both = {
        let mut v = gone.clone();
        let mut k: usize = 0;
        while k < rows.len()
            invariant
                k <= rows.len(),
                v@ == gone@ + rows@.subrange(0, k as int),
            decreases rows.len() - k,
        {
            v.push(rows[k]);
            k = k + 1;
            assert(v@ =~= gone@ + rows@.subrange(0, k as int));
        }
        assert(rows@.subrange(0, rows.len() as int) =~= rows@);
        v
    };
    let mut all: Vec<usize> = Vec::new();
    let mut i: usize = 0;
    proof {
        broadcast use vstd::seq_lib::group_to_multiset_ensures;
        assert(both@.subrange(0, 0) =~= Seq::<usize>::empty());
        assert(all@ =~= Seq::<usize>::empty());
        assert(Seq::<usize>::empty().to_multiset() =~= vstd::multiset::Multiset::empty());
    }
    while i < both.len()
        invariant
            i <= both.len(),
            ascending(all@),
            all@.to_multiset() == both@.subrange(0, i as int).to_multiset(),
        decreases both.len() - i,
    {
        insert_sorted(&mut all, both[i]);
        proof {
            broadcast use vstd::seq_lib::group_to_multiset_ensures;
            assert(both@.subrange(0, i + 1) =~= both@.subrange(0, i as int).push(both@[i as int]));
        }
        i = i + 1;
    }
    proof {
        assert(both@.subrange(0, both.len() as int) =~= both@);
    }
    all
}

} // verus!
