//! The component gallery's own logic: themes, viewports, and the slugs that
//! name each demo in its address.
use crate::text::{chars_of, push_char};
use vstd::prelude::*;

verus! {

/// Whether `c` is an ASCII letter or digit.
pub open spec fn is_ascii_alnum(c: char) -> bool {
    ('0' <= c <= '9') || ('a' <= c <= 'z') || ('A' <= c <= 'Z')
}

/// `c` with an ASCII capital turned into its small letter.
pub open spec fn ascii_lower(c: char) -> char {
    if 'A' <= c <= 'Z' {
        (c as int + 32) as char
    } else {
        c
    }
}

/// The slug built so far from `name` and whether a separator is pending:
/// runs of ASCII letters and digits, lowercased, joined by single hyphens.
pub open spec fn slug_state(name: Seq<char>) -> (Seq<char>, bool)
    decreases name.len(),
{
    if name.len() == 0 {
        (seq![], false)
    } else {
        let (slug, pending) = slug_state(name.drop_last());
        let c = name.last();
        if is_ascii_alnum(c) {
            let joined = if pending && slug.len() > 0 { slug.push('-') } else { slug };
            (joined.push(ascii_lower(c)), false)
        } else {
            (slug, true)
        }
    }
}

/// The slug of `name`.
pub open spec fn slug(name: Seq<char>) -> Seq<char> {
    slug_state(name).0
}

/// `c` with an ASCII capital turned into its small letter.
fn lower(c: char) -> (l: char)
    ensures
        l == ascii_lower(c),
{
    if 'A' <= c && c <= 'Z' {
        ((c as u32 + 32) as u8) as char
    } else {
        c
    }
}

/// The slug for a component name: its ASCII letters and digits, lowercased,
/// with a single hyphen wherever other characters separated them.
pub fn demo_slug(name: &str) -> (text: String)
    ensures
        text@ == slug(name@),
{
    let chars = chars_of(name);
    let mut text = String::new();
    let mut pending = false;
    let mut empty = true;
    let mut i: usize = 0;
    while i < chars.len()
        invariant
            i <= chars.len(),
            chars@ == name@,
            (text@, pending) == slug_state(chars@.subrange(0, i as int)),
            empty == (text@.len() == 0),
        decreases chars.len() - i,
    {
        let c = chars[i];
        proof {
            let next = chars@.subrange(0, i + 1);
            assert(next.drop_last() =~= chars@.subrange(0, i as int));
            assert(next.last() == c);
        }
        if ('0' <= c && c <= '9') || ('a' <= c && c <= 'z') || ('A' <= c && c <= 'Z') {
            if pending && !empty {
                push_char(&mut text, '-');
            }
            pending = false;
            push_char(&mut text, lower(c));
            empty = false;
        } else {
            pending = true;
        }
        i = i + 1;
    }
    proof {
        assert(chars@.subrange(0, chars.len() as int) =~= chars@);
    }
    text
}

/// Whether `s` can stand in an address as is: only small ASCII letters,
/// digits and hyphens, no hyphen first or last, and never two in a row.
pub open spec fn is_clean_slug(s: Seq<char>) -> bool {
    &&& forall|i: int|
        0 <= i < s.len() ==> ('0' <= #[trigger] s[i] <= '9' || 'a' <= s[i] <= 'z' || s[i] == '-')
    &&& s.len() > 0 ==> s[0] != '-' && s.last() != '-'
    &&& forall|i: int| 0 <= i < s.len() - 1 ==> !(#[trigger] s[i] == '-' && s[i + 1] == '-')
}

/// Every slug is clean, whatever the name it comes from.
pub proof fn lemma_slug_is_clean(name: Seq<char>)
    ensures
        is_clean_slug(slug(name)),
    decreases name.len(),
{
    if name.len() > 0 {
        lemma_slug_is_clean(name.drop_last());
        let (prev, pending) = slug_state(name.drop_last());
        let c = name.last();
        if is_ascii_alnum(c) {
            let joined = if pending && prev.len() > 0 { prev.push('-') } else { prev };
            let next = joined.push(ascii_lower(c));
            assert(next == slug(name));
            assert(ascii_lower(c) != '-');
            assert forall|i: int| 0 <= i < next.len() implies ('0' <= #[trigger] next[i] <= '9'
                || 'a' <= next[i] <= 'z' || next[i] == '-') by {
                if i < prev.len() {
                    assert(next[i] == prev[i]);
                }
            }
            assert forall|i: int| 0 <= i < next.len() - 1 implies !(#[trigger] next[i] == '-'
                && next[i + 1] == '-') by {
                if i + 1 < prev.len() {
                    assert(next[i] == prev[i]);
                    assert(next[i + 1] == prev[i + 1]);
                } else if i + 1 == prev.len() {
                    assert(next[i] == prev.last());
                }
            }
            if prev.len() > 0 {
                assert(next[0] == prev[0]);
            }
        }
    }
}

/// The demo to show for the slug an address asks for: the first demo whose
/// name has that slug, or the first demo when none has or none is asked for.
pub fn selected_demo(names: &[&str], requested: Option<&str>) -> (index: usize)
    requires
        names.len() > 0,
    ensures
        index < names.len(),
        match requested {
            Some(r) => if exists|i: int| 0 <= i < names.len() && slug(names@[i]@) == r@ {
                slug(names@[index as int]@) == r@ && forall|j: int|
                    0 <= j < index ==> slug(names@[j]@) != r@
            } else {
                index == 0
            },
            None => index == 0,
        },
{
    match requested {
        None => 0,
        Some(r) => {
            let wanted = r.to_owned();
            let mut i: usize = 0;
            while i < names.len()
                invariant
                    i <= names.len(),
                    wanted@ == r@,
                    requested == Some(r),
                    forall|j: int| 0 <= j < i ==> slug(names@[j]@) != r@,
                decreases names.len() - i,
            {
                let candidate = demo_slug(names[i]);
                if candidate == wanted {
                    assert(slug(names@[i as int]@) == r@);
                    return i;
                }
                i = i + 1;
            }
            0
        },
    }
}

/// The brand themes the gallery can show components in.
#[derive(Clone, Copy, Debug, PartialEq, Eq, Structural)]
pub enum PlaygroundTheme {
    Blue,
    Green,
    Night,
    Forest,
}

/// The name of `theme` in the theme picker.
pub open spec fn theme_label(theme: PlaygroundTheme) -> Seq<char> {
    match theme {
        PlaygroundTheme::Blue => "Blue"@,
        PlaygroundTheme::Green => "Green"@,
        PlaygroundTheme::Night => "Night"@,
        PlaygroundTheme::Forest => "Forest"@,
    }
}

impl PlaygroundTheme {
    /// The name in the theme picker.
    pub fn label(self) -> (label: &'static str)
        ensures
            label@ == theme_label(self),
    {
        match self {
            PlaygroundTheme::Blue => "Blue",
            PlaygroundTheme::Green => "Green",
            PlaygroundTheme::Night => "Night",
            PlaygroundTheme::Forest => "Forest",
        }
    }

    /// Every theme, in picker order.
    pub fn all() -> (themes: [Self; 4])
        ensures
            themes@ == seq![
                PlaygroundTheme::Blue,
                PlaygroundTheme::Green,
                PlaygroundTheme::Night,
                PlaygroundTheme::Forest,
            ],
    {
        let themes = [
            PlaygroundTheme::Blue,
            PlaygroundTheme::Green,
            PlaygroundTheme::Night,
            PlaygroundTheme::Forest,
        ];
        proof {
            assert(themes@ =~= seq![
                PlaygroundTheme::Blue,
                PlaygroundTheme::Green,
                PlaygroundTheme::Night,
                PlaygroundTheme::Forest,
            ]);
        }
        themes
    }
}

/// The simulated device width the gallery shows a demo at.
#[derive(Clone, Copy, Debug, PartialEq, Eq, Structural)]
pub enum PlaygroundViewport {
    Mobile,
    Desktop,
}

/// The name of `viewport` that the gallery's stylesheet reads.
pub open spec fn viewport_name(viewport: PlaygroundViewport) -> Seq<char> {
    match viewport {
        PlaygroundViewport::Mobile => "mobile"@,
        PlaygroundViewport::Desktop => "desktop"@,
    }
}

impl PlaygroundViewport {
    /// The name that the gallery's stylesheet reads.
    pub fn as_str(self) -> (name: &'static str)
        ensures
            name@ == viewport_name(self),
    {
        match self {
            PlaygroundViewport::Mobile => "mobile",
            PlaygroundViewport::Desktop => "desktop",
        }
    }
}

} // verus!
