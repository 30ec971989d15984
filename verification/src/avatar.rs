//! The initials an avatar shows when it has no image.
use crate::text::{chars_of, is_white_space, push_chars, uppercase, uppercase_of, white_space};
use vstd::prelude::*;

verus! {

/// The first character of each white-space-separated word of `s`, in order;
/// `after_space` says whether a word may start at `s[0]`.
pub open spec fn word_starts(s: Seq<char>, after_space: bool) -> Seq<char>
    decreases s.len(),
{
    if s.len() == 0 {
        seq![]
    } else if !is_white_space(s[0]) && after_space {
        seq![s[0]] + word_starts(s.drop_first(), false)
    } else {
        word_starts(s.drop_first(), is_white_space(s[0]))
    }
}

/// The uppercase mappings of `letters`, one after the other.
pub open spec fn uppercased(letters: Seq<char>) -> Seq<char>
    decreases letters.len(),
{
    if letters.len() == 0 {
        seq![]
    } else {
        uppercased(letters.drop_last()) + uppercase_of(letters.last())
    }
}

/// The initials of `name`: the uppercased first letters of its first two words.
pub open spec fn initials(name: Seq<char>) -> Seq<char> {
    let starts = word_starts(name, true);
    uppercased(starts.take(if starts.len() < 2 { starts.len() as int } else { 2 }))
}

/// The pieces of `parts`, one after the other.
pub open spec fn joined(parts: Seq<Seq<char>>) -> Seq<char>
    decreases parts.len(),
{
    if parts.len() == 0 {
        seq![]
    } else {
        joined(parts.drop_last()) + parts.last()
    }
}

/// The views of `parts`.
pub open spec fn pieces(parts: Seq<Vec<char>>) -> Seq<Seq<char>> {
    parts.map_values(|p: Vec<char>| p@)
}

/// The uppercase mapping of each of `letters`.
pub open spec fn mappings_of(letters: Seq<char>) -> Seq<Seq<char>> {
    letters.map_values(|c: char| uppercase_of(c))
}

/// Joining the uppercase mappings of letters is uppercasing them.
proof fn lemma_joined_mappings(letters: Seq<char>)
    ensures
        joined(mappings_of(letters)) == uppercased(letters),
    decreases letters.len(),
{
    if letters.len() > 0 {
        lemma_joined_mappings(letters.drop_last());
        assert(mappings_of(letters).drop_last() =~= mappings_of(letters.drop_last()));
    }
}

/// The letters that start the first two white-space-separated words of
/// `name`, in order.
pub fn initial_letters(name: &str) -> (letters: Vec<char>)
    ensures
        letters@ == word_starts(name@, true).take(
            if word_starts(name@, true).len() < 2 {
                word_starts(name@, true).len() as int
            } else {
                2
            },
        ),
{
    let chars = chars_of(name);
    let mut starts: Vec<char> = Vec::new();
    let mut after_space = true;
    let mut i: usize = 0;
    proof {
        assert(chars@.subrange(0, chars.len() as int) =~= chars@);
        assert(starts@ + word_starts(chars@, true) =~= word_starts(chars@, true));
    }
    while i < chars.len()
        invariant
            i <= chars.len(),
            chars@ == name@,
            word_starts(name@, true) == starts@ + word_starts(
                chars@.subrange(i as int, chars.len() as int),
                after_space,
            ),
        decreases chars.len() - i,
    {
        let ghost rest = chars@.subrange(i as int, chars.len() as int);
        let c = chars[i];
        proof {
            assert(rest.drop_first() =~= chars@.subrange(i + 1, chars.len() as int));
            assert(rest[0] == c);
        }
        let space = white_space(c);
        if !space && after_space {
            starts.push(c);
            proof {
                assert(starts@ + word_starts(rest.drop_first(), false) =~= starts@.drop_last() + (
                seq![c] + word_starts(rest.drop_first(), false)));
            }
        }
        after_space = space;
        i = i + 1;
    }
    proof {
        assert(chars@.subrange(chars.len() as int, chars.len() as int) =~= Seq::<char>::empty());
        assert(starts@ + Seq::<char>::empty() =~= starts@);
    }
    if starts.len() > 2 {
        starts.truncate(2);
    }
    proof {
        assert(starts@ =~= word_starts(name@, true).take(
            if word_starts(name@, true).len() < 2 {
                word_starts(name@, true).len() as int
            } else {
                2
            },
        ));
    }
    starts
}

/// The pieces of `parts`, one after the other, as a string: how the
/// uppercase mappings of the initials make up the text shown.
pub fn join_pieces(parts: &Vec<Vec<char>>) -> (text: String)
    ensures
        text@ == joined(pieces(parts@)),
{
    let mut text = String::new();
    let mut k: usize = 0;
    while k < parts.len()
        invariant
            k <= parts.len(),
            text@ == joined(pieces(parts@.take(k as int))),
        decreases parts.len() - k,
    {
        proof {
            assert(pieces(parts@.take(k + 1)).drop_last() =~= pieces(parts@.take(k as int)));
        }
        push_chars(&mut text, &parts[k]);
        k = k + 1;
    }
    proof {
        assert(parts@.take(parts.len() as int) =~= parts@);
    }
    text
}

/// The initials of `name`: the uppercased first letters of its first two words.
pub fn initials_of(name: &str) -> (text: String)
    ensures
        text@ == initials(name@),
{
    let letters = initial_letters(name);
    let mut mappings: Vec<Vec<char>> = Vec::new();
    let mut k: usize = 0;
    while k < letters.len()
        invariant
            k <= letters.len(),
            pieces(mappings@) == mappings_of(letters@.take(k as int)),
        decreases letters.len() - k,
    {
        let mapped = uppercase(letters[k]);
        let ghost before = mappings@;
        mappings.push(mapped);
        proof {
            let now = pieces(mappings@);
            let want = mappings_of(letters@.take(k + 1));
            assert(mappings@ == before.push(mapped));
            assert(mappings_of(letters@.take(k as int)).len() == k);
            assert(before.len() == k);
            assert(now.len() == k + 1);
            assert(want.len() == k + 1);
            assert forall|i: int| 0 <= i < k + 1 implies now[i] == want[i] by {
                if i < k {
                    assert(now[i] == pieces(before)[i]);
                    assert(want[i] == mappings_of(letters@.take(k as int))[i]);
                } else {
                    assert(now[i] == mapped@);
                }
            }
            assert(now =~= want);
        }
        k = k + 1;
    }
    proof {
        assert(letters@.take(letters.len() as int) =~= letters@);
        lemma_joined_mappings(letters@);
    }
    join_pieces(&mappings)
}

/// `Avatar` size.
#[derive(Clone, Copy, Debug, PartialEq, Eq, Structural, Hash)]
pub enum AvatarSize {
    /// 28px, for dense rows and mentions.
    Sm,
    /// 36px.
    Md,
    /// 48px, for profile headers.
    Lg,
}

impl Default for AvatarSize {
    fn default() -> (value: Self)
        ensures
            value == AvatarSize::Md,
    {
        AvatarSize::Md
    }
}

/// The size class for `value`.
pub open spec fn avatar_size_class(value: AvatarSize) -> Seq<char> {
    match value {
        AvatarSize::Sm => "g3-avatar-sm"@,
        AvatarSize::Md => "g3-avatar-md"@,
        AvatarSize::Lg => "g3-avatar-lg"@,
    }
}

impl AvatarSize {
    /// The size class.
    pub fn class(self) -> (text: &'static str)
        ensures
            text@ == avatar_size_class(self),
    {
        match self {
            AvatarSize::Sm => "g3-avatar-sm",
            AvatarSize::Md => "g3-avatar-md",
            AvatarSize::Lg => "g3-avatar-lg",
        }
    }
}

} // verus!
