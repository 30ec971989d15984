//! Behaviour shared by overlays: script-safe string literals and the
//! reference count behind the page scroll lock.
use crate::text::{chars_of, push_char, push_str};
use vstd::prelude::*;

verus! {

/// The lowercase hexadecimal digit of `d` (0 to 15).
pub open spec fn hex_char(d: int) -> char {
    if d < 10 {
        (d + 48) as char
    } else {
        (d - 10 + 97) as char
    }
}

/// `n` (below 0x10000) as four lowercase hexadecimal digits, as `{:04x}`
/// writes it.
pub open spec fn hex4(n: int) -> Seq<char> {
    seq![hex_char(n / 4096 % 16), hex_char(n / 256 % 16), hex_char(n / 16 % 16), hex_char(n % 16)]
}

/// Whether `c` is written as a `\uXXXX` escape: a control character or a
/// line or paragraph separator.
pub open spec fn needs_unicode_escape(c: char) -> bool {
    (c as int) < 0x20 || c == '\u{2028}' || c == '\u{2029}'
}

/// How `c` is written inside a JavaScript string literal.
pub open spec fn escaped(c: char) -> Seq<char> {
    if c == '"' {
        seq!['\\', '"']
    } else if c == '\\' {
        seq!['\\', '\\']
    } else if c == '<' {
        seq!['\\', 'u', '0', '0', '3', 'c']
    } else if needs_unicode_escape(c) {
        seq!['\\', 'u'] + hex4(c as int)
    } else {
        seq![c]
    }
}

/// The escaped form of every character of `s`, in order.
pub open spec fn escaped_text(s: Seq<char>) -> Seq<char>
    decreases s.len(),
{
    if s.len() == 0 {
        seq![]
    } else {
        escaped_text(s.drop_last()) + escaped(s.last())
    }
}

/// `s` as a double-quoted JavaScript string literal.
pub open spec fn js_literal(s: Seq<char>) -> Seq<char> {
    seq!['"'] + escaped_text(s) + seq!['"']
}

/// The hexadecimal digit character of `d`.
fn hex_digit(d: u32) -> (c: char)
    requires
        d < 16,
    ensures
        c == hex_char(d as int),
{
    match d {
        0 => '0',
        1 => '1',
        2 => '2',
        3 => '3',
        4 => '4',
        5 => '5',
        6 => '6',
        7 => '7',
        8 => '8',
        9 => '9',
        10 => 'a',
        11 => 'b',
        12 => 'c',
        13 => 'd',
        14 => 'e',
        _ => 'f',
    }
}

/// Appends how `c` is written inside a JavaScript string literal.
fn push_escaped(out: &mut String, c: char)
    ensures
        final(out)@ == old(out)@ + escaped(c),
{
    let ghost start = out@;
    if c == '"' {
        push_str(out, "\\\"");
        proof {
            reveal_strlit("\\\"");
            assert(out@ =~= start + escaped(c));
        }
    } else if c == '\\' {
        push_str(out, "\\\\");
        proof {
            reveal_strlit("\\\\");
            assert(out@ =~= start + escaped(c));
        }
    } else if c == '<' {
        push_str(out, "\\u003c");
        proof {
            reveal_strlit("\\u003c");
            assert(out@ =~= start + escaped(c));
        }
    } else if (c as u32) < 0x20 || c == '\u{2028}' || c == '\u{2029}' {
        let n = c as u32;
        push_char(out, '\\');
        push_char(out, 'u');
        push_char(out, hex_digit(n / 4096 % 16));
        push_char(out, hex_digit(n / 256 % 16));
        push_char(out, hex_digit(n / 16 % 16));
        push_char(out, hex_digit(n % 16));
        proof {
            assert(out@ =~= start + escaped(c));
        }
    } else {
        push_char(out, c);
        proof {
            assert(out@ =~= start + escaped(c));
        }
    }
}

/// `text` as a JavaScript string literal, safe to splice into an `eval`
/// script whatever it contains.
pub fn js_string(text: &str) -> (literal: String)
    ensures
        literal@ == js_literal(text@),
{
    let chars = chars_of(text);
    let mut out = String::new();
    push_char(&mut out, '"');
    let mut i: usize = 0;
    while i < chars.len()
        invariant
            i <= chars.len(),
            chars@ == text@,
            out@ == seq!['"'] + escaped_text(chars@.subrange(0, i as int)),
        decreases chars.len() - i,
    {
        proof {
            let next = chars@.subrange(0, i + 1);
            assert(next.drop_last() =~= chars@.subrange(0, i as int));
        }
        push_escaped(&mut out, chars[i]);
        i = i + 1;
        proof {
            assert(out@ =~= seq!['"'] + escaped_text(chars@.subrange(0, i as int)));
        }
    }
    proof {
        assert(chars@.subrange(0, chars.len() as int) =~= chars@);
    }
    push_char(&mut out, '"');
    proof {
        assert(out@ =~= js_literal(text@));
    }
    out
}

/// No escaped character is a raw quote, a raw `<`, a control character or
/// a line or paragraph separator.
proof fn lemma_escaped_char_safe(c: char, i: int)
    requires
        0 <= i < escaped(c).len(),
    ensures
        escaped(c)[i] != '<',
        !needs_unicode_escape(escaped(c)[i]),
        escaped(c)[i] == '"' ==> i > 0 && escaped(c)[i - 1] == '\\',
{
    if needs_unicode_escape(c) && c != '"' && c != '\\' && c != '<' {
        let n = c as int;
        assert(0 <= n / 4096 % 16 < 16);
        assert(0 <= n / 256 % 16 < 16);
        assert(0 <= n / 16 % 16 < 16);
        assert(0 <= n % 16 < 16);
    }
}

/// Inside the quotes of a literal there is no raw `<`, no control
/// character and no line or paragraph separator, and every `"` is preceded
/// by a backslash: the text cannot end the literal or the script around it.
pub proof fn lemma_js_literal_is_inert(s: Seq<char>, i: int)
    requires
        0 <= i < escaped_text(s).len(),
    ensures
        escaped_text(s)[i] != '<',
        !needs_unicode_escape(escaped_text(s)[i]),
        escaped_text(s)[i] == '"' ==> i > 0 && escaped_text(s)[i - 1] == '\\',
    decreases s.len(),
{
    if s.len() > 0 {
        let front = escaped_text(s.drop_last());
        let last = escaped(s.last());
        assert(escaped_text(s) == front + last);
        if i < front.len() {
            lemma_js_literal_is_inert(s.drop_last(), i);
        } else {
            lemma_escaped_char_safe(s.last(), i - front.len());
        }
    }
}

// ---------------------------------------------------------------------------
// Page scroll lock
// ---------------------------------------------------------------------------

/// What taking or releasing one hold on the page scroll lock does: the new
/// number of holds, and whether to lock (`Some(true)`) or unlock
/// (`Some(false)`) the page, which happens only when the count leaves or
/// reaches zero.
pub open spec fn lock_step(count: int, acquire: bool) -> (int, Option<bool>) {
    let next = if acquire {
        count + 1
    } else if count > 0 {
        count - 1
    } else {
        0
    };
    let action = if (acquire && next == 1) || (!acquire && next == 0) {
        Some(next > 0)
    } else {
        None
    };
    (next, action)
}

/// One hold taken (`acquire`) or released on the page scroll lock, whose
/// holders number `count`: the new count, and the change to make to the page
/// if any.
pub fn adjust_lock(count: usize, acquire: bool) -> (step: (usize, Option<bool>))
    requires
        acquire ==> count < usize::MAX,
    ensures
        step.0 == lock_step(count as int, acquire).0,
        step.1 == lock_step(count as int, acquire).1,
{
    let next = if acquire {
        count + 1
    } else if count > 0 {
        count - 1
    } else {
        0
    };
    let action = if (acquire && next == 1) || (!acquire && next == 0) {
        Some(next > 0)
    } else {
        None
    };
    (next, action)
}

/// The page is locked exactly while someone holds the lock: if that held
/// before a step, it holds after the step's change is applied.
pub proof fn lemma_lock_tracks_holders(count: int, page_locked: bool, acquire: bool)
    requires
        count >= 0,
        page_locked == (count > 0),
    ensures
        ({
            let (next, action) = lock_step(count, acquire);
            let locked_after = match action {
                Some(lock) => lock,
                None => page_locked,
            };
            next >= 0 && locked_after == (next > 0)
        }),
{
}

/// The change an overlay makes to its hold on the page scroll lock: it
/// wants a hold while `locked`, unless locking is `disabled` (as in a
/// preview frame); `Some(true)` takes one, `Some(false)` gives it back, and
/// `None` leaves the hold as it is.
pub fn hold_change(held: bool, locked: bool, disabled: bool) -> (change: Option<bool>)
    ensures
        change == (if held != (locked && !disabled) {
            Some(locked && !disabled)
        } else {
            None
        }),
{
    let want = locked && !disabled;
    if held != want {
        Some(want)
    } else {
        None
    }
}

/// What an overlay does with its focus script as it opens or closes.
#[derive(Clone, Copy, Debug, PartialEq, Eq, Structural, Hash)]
pub enum FocusStep {
    /// Start a focus script for the overlay.
    Start,
    /// Tell the running script to close, handing focus back.
    Close,
    /// Nothing to do.
    Nothing,
}

/// The focus step of an overlay that is `open` or not, with or without a
/// script `running`: one script runs exactly while the overlay is open.
pub fn focus_step(open: bool, running: bool) -> (step: FocusStep)
    ensures
        step == (if open && !running {
            FocusStep::Start
        } else if !open && running {
            FocusStep::Close
        } else {
            FocusStep::Nothing
        }),
{
    if open && !running {
        FocusStep::Start
    } else if !open && running {
        FocusStep::Close
    } else {
        FocusStep::Nothing
    }
}

} // verus!
