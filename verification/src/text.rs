//! Decimal numbers and white space, as read and written by the date, time
//! and dial code: zero-padded formatting, Rust's integer syntax, and
//! Unicode white-space trimming.
use vstd::prelude::*;

verus! {

// ---------------------------------------------------------------------------
// Specifications
// ---------------------------------------------------------------------------

/// The character of decimal digit `d` (0 to 9).
pub open spec fn digit_char(d: int) -> char {
    (d + 48) as char
}

/// Whether `c` is an ASCII decimal digit.
pub open spec fn is_digit(c: char) -> bool {
    '0' <= c <= '9'
}

/// Whether every character of `s` is an ASCII decimal digit.
pub open spec fn all_digits(s: Seq<char>) -> bool {
    forall|i: int| 0 <= i < s.len() ==> is_digit(#[trigger] s[i])
}

/// The decimal digits of `n`, most significant first, without leading zeros.
pub open spec fn decimal(n: nat) -> Seq<char>
    decreases n,
{
    if n < 10 {
        seq![digit_char(n as int)]
    } else {
        decimal(n / 10).push(digit_char((n % 10) as int))
    }
}

/// `count` zero characters.
pub open spec fn zeros(count: int) -> Seq<char> {
    Seq::new(if count > 0 { count as nat } else { 0 }, |i: int| '0')
}

/// `s` with zeros in front of it up to `width` characters.
pub open spec fn zero_padded(s: Seq<char>, width: int) -> Seq<char> {
    zeros(width - s.len()) + s
}

/// `n` in decimal, zero-padded to `width` characters after its sign, as
/// `format!("{:0width$}", n)` writes it.
pub open spec fn padded_decimal(n: int, width: int) -> Seq<char> {
    if n < 0 {
        seq!['-'] + zero_padded(decimal((-n) as nat), width - 1)
    } else {
        zero_padded(decimal(n as nat), width)
    }
}

/// The value of a string of decimal digits (0 for the empty string).
pub open spec fn digits_value(s: Seq<char>) -> int
    decreases s.len(),
{
    if s.len() == 0 {
        0
    } else {
        digits_value(s.drop_last()) * 10 + (s.last() as int - 48)
    }
}

/// The integer that `s` spells in Rust's integer syntax: an optional `+`
/// (or `-`, when `signed`) followed by one or more ASCII digits; `None` when
/// `s` is not of that form.
pub open spec fn integer_value(s: Seq<char>, signed: bool) -> Option<int> {
    if s.len() == 0 {
        None
    } else if (s[0] == '+' || s[0] == '-') && s.len() == 1 {
        None
    } else if s[0] == '+' {
        if all_digits(s.drop_first()) {
            Some(digits_value(s.drop_first()))
        } else {
            None
        }
    } else if s[0] == '-' && signed {
        if all_digits(s.drop_first()) {
            Some(-digits_value(s.drop_first()))
        } else {
            None
        }
    } else if all_digits(s) {
        Some(digits_value(s))
    } else {
        None
    }
}

/// What parsing `s` as an integer type with the range `lo..=hi` gives: the
/// value, or `None` when the syntax is wrong or the value out of range.
pub open spec fn parse_integer(s: Seq<char>, signed: bool, lo: int, hi: int) -> Option<int> {
    match integer_value(s, signed) {
        Some(v) => if lo <= v <= hi {
            Some(v)
        } else {
            None
        },
        None => None,
    }
}

/// Whether `c` has the Unicode `White_Space` property.
pub open spec fn is_white_space(c: char) -> bool {
    ||| '\u{9}' <= c <= '\u{d}'
    ||| c == ' '
    ||| c == '\u{85}'
    ||| c == '\u{a0}'
    ||| c == '\u{1680}'
    ||| '\u{2000}' <= c <= '\u{200a}'
    ||| c == '\u{2028}'
    ||| c == '\u{2029}'
    ||| c == '\u{202f}'
    ||| c == '\u{205f}'
    ||| c == '\u{3000}'
}

/// `s` without its leading and trailing white space.
pub open spec fn trimmed(s: Seq<char>) -> Seq<char>
    decreases s.len(),
{
    if s.len() > 0 && is_white_space(s[0]) {
        trimmed(s.drop_first())
    } else if s.len() > 0 && is_white_space(s.last()) {
        trimmed(s.drop_last())
    } else {
        s
    }
}

/// The position of the first `c` in `s`, if any.
pub open spec fn first_index(s: Seq<char>, c: char) -> Option<int>
    decreases s.len(),
{
    if s.len() == 0 {
        None
    } else if s[0] == c {
        Some(0)
    } else {
        match first_index(s.drop_first(), c) {
            Some(i) => Some(i + 1),
            None => None,
        }
    }
}

// ---------------------------------------------------------------------------
// Lemmas
// ---------------------------------------------------------------------------

/// Decimal digits are digits, and spell the number.
pub proof fn lemma_decimal(n: nat)
    ensures
        all_digits(decimal(n)),
        digits_value(decimal(n)) == n,
        1 <= decimal(n).len(),
    decreases n,
{
    lemma_digit_char((n % 10) as int);
    if n >= 10 {
        lemma_decimal(n / 10);
        let d = decimal(n);
        assert(d.drop_last() =~= decimal(n / 10));
        assert(d.last() == digit_char((n % 10) as int));
        assert(digits_value(d) == digits_value(d.drop_last()) * 10 + (d.last() as int - 48));
        assert forall|i: int| 0 <= i < d.len() implies is_digit(#[trigger] d[i]) by {
            if i < d.len() - 1 {
                assert(d[i] == decimal(n / 10)[i]);
            }
        }
    } else {
        let d = decimal(n);
        assert(d.drop_last() =~= Seq::<char>::empty());
        assert(digits_value(d) == digits_value(d.drop_last()) * 10 + (d.last() as int - 48));
    }
}

/// Digit characters are the ASCII digits, in order.
pub proof fn lemma_digit_char(d: int)
    requires
        0 <= d < 10,
    ensures
        digit_char(d) as int == d + 48,
        is_digit(digit_char(d)),
{
}

/// Leading zeros do not change the value of a digit string.
pub proof fn lemma_leading_zeros(count: int, s: Seq<char>)
    requires
        all_digits(s),
    ensures
        all_digits(zeros(count) + s),
        digits_value(zeros(count) + s) == digits_value(s),
    decreases s.len(),
{
    if s.len() == 0 {
        lemma_zeros_value(count);
        assert(zeros(count) + s =~= zeros(count));
    } else {
        lemma_leading_zeros(count, s.drop_last());
        assert((zeros(count) + s).drop_last() =~= zeros(count) + s.drop_last());
    }
}

/// A string of zeros is worth zero.
proof fn lemma_zeros_value(count: int)
    ensures
        digits_value(zeros(count)) == 0,
        all_digits(zeros(count)),
    decreases if count > 0 { count } else { 0 },
{
    if count > 0 {
        lemma_zeros_value(count - 1);
        assert(zeros(count).drop_last() =~= zeros(count - 1));
    }
}

/// A zero-padded number reads back as the number.
pub proof fn lemma_padded_value(n: nat, width: int)
    ensures
        all_digits(zero_padded(decimal(n), width)),
        digits_value(zero_padded(decimal(n), width)) == n,
        zero_padded(decimal(n), width).len() >= 1,
{
    lemma_decimal(n);
    lemma_leading_zeros(width - decimal(n).len(), decimal(n));
}

/// A string of digits holds no `c` that is not a digit.
pub proof fn lemma_no_index_in_digits(s: Seq<char>, c: char)
    requires
        all_digits(s),
        !is_digit(c),
    ensures
        first_index(s, c) is None,
    decreases s.len(),
{
    if s.len() > 0 {
        lemma_no_index_in_digits(s.drop_first(), c);
    }
}

/// In `a + [c] + b`, where `a` holds no `c`, the first `c` follows `a`.
pub proof fn lemma_first_index_after(a: Seq<char>, c: char, b: Seq<char>)
    requires
        first_index(a, c) is None,
    ensures
        first_index(a + seq![c] + b, c) == Some(a.len() as int),
    decreases a.len(),
{
    if a.len() > 0 {
        lemma_first_index_after(a.drop_first(), c, b);
        assert((a + seq![c] + b).drop_first() =~= a.drop_first() + seq![c] + b);
    } else {
        assert((a + seq![c] + b)[0] == c);
    }
}

/// Text that neither starts nor ends with white space is its own trim.
pub proof fn lemma_trimmed_unchanged(s: Seq<char>)
    requires
        s.len() > 0,
        !is_white_space(s[0]),
        !is_white_space(s.last()),
    ensures
        trimmed(s) == s,
{
}

/// The first index found is an occurrence, with none before it.
pub proof fn lemma_first_index(s: Seq<char>, c: char)
    ensures
        first_index(s, c) matches Some(i) ==> 0 <= i < s.len() && s[i] == c && forall|k: int|
            0 <= k < i ==> s[k] != c,
        first_index(s, c) is None ==> forall|k: int| 0 <= k < s.len() ==> s[k] != c,
    decreases s.len(),
{
    if s.len() > 0 {
        lemma_first_index(s.drop_first(), c);
        if s[0] != c {
            assert forall|k: int| 1 <= k < s.len() implies s[k] == s.drop_first()[k - 1] by {}
        }
    }
}

/// An occurrence with none before it is the first one.
pub proof fn lemma_first_index_at(s: Seq<char>, c: char, k: int)
    requires
        0 <= k < s.len(),
        s[k] == c,
        forall|j: int| 0 <= j < k ==> s[j] != c,
    ensures
        first_index(s, c) == Some(k),
    decreases s.len(),
{
    if k > 0 {
        assert forall|j: int| 0 <= j < k - 1 implies s.drop_first()[j] != c by {
            assert(s.drop_first()[j] == s[j + 1]);
        }
        lemma_first_index_at(s.drop_first(), c, k - 1);
    }
}

/// With no occurrence there is no first one.
pub proof fn lemma_first_index_none(s: Seq<char>, c: char)
    requires
        forall|j: int| 0 <= j < s.len() ==> s[j] != c,
    ensures
        first_index(s, c) is None,
    decreases s.len(),
{
    if s.len() > 0 {
        assert forall|j: int| 0 <= j < s.len() - 1 implies s.drop_first()[j] != c by {
            assert(s.drop_first()[j] == s[j + 1]);
        }
        lemma_first_index_none(s.drop_first(), c);
    }
}

/// A longer digit string is worth at least as much as its prefix.
pub proof fn lemma_prefix_value(s: Seq<char>, k: int)
    requires
        all_digits(s),
        0 <= k <= s.len(),
    ensures
        digits_value(s.subrange(0, k)) <= digits_value(s),
        0 <= digits_value(s),
    decreases s.len(),
{
    if s.len() > 0 {
        assert(all_digits(s.drop_last()));
        if k == s.len() {
            assert(s.subrange(0, k) =~= s);
            lemma_prefix_value(s.drop_last(), k - 1);
        } else {
            lemma_prefix_value(s.drop_last(), k);
            assert(s.drop_last().subrange(0, k) =~= s.subrange(0, k));
        }
        assert(is_digit(s.last()));
    }
}

// ---------------------------------------------------------------------------
// Executable code
// ---------------------------------------------------------------------------

/// Appends `c` to `text`: `String::push`.
#[verifier::external_body]
pub(crate) fn push_char(text: &mut String, c: char)
    ensures
        final(text)@ == old(text)@.push(c),
{
    text.push(c);
}

/// Appends each of `chars` to `text`.
pub fn push_chars(text: &mut String, chars: &Vec<char>)
    ensures
        final(text)@ == old(text)@ + chars@,
{
    let ghost start = text@;
    let mut i: usize = 0;
    while i < chars.len()
        invariant
            i <= chars.len(),
            text@ == start + chars@.subrange(0, i as int),
        decreases chars.len() - i,
    {
        push_char(text, chars[i]);
        i = i + 1;
        assert(chars@.subrange(0, i as int) =~= chars@.subrange(0, i - 1).push(chars@[i - 1]));
    }
    assert(chars@.subrange(0, chars.len() as int) =~= chars@);
}

/// The characters of `text`.
pub fn chars_of(text: &str) -> (chars: Vec<char>)
    ensures
        chars@ == text@,
{
    let n = text.unicode_len();
    let mut chars: Vec<char> = Vec::new();
    let mut i: usize = 0;
    while i < n
        invariant
            n == text@.len(),
            i <= n,
            chars@ == text@.subrange(0, i as int),
        decreases n - i,
    {
        chars.push(text.get_char(i));
        i = i + 1;
        assert(chars@ =~= text@.subrange(0, i as int));
    }
    assert(text@.subrange(0, n as int) =~= text@);
    chars
}

/// The character of decimal digit `d`.
pub fn digit(d: u8) -> (c: char)
    requires
        d < 10,
    ensures
        c == digit_char(d as int),
{
    match d {
        0 => '0',
        1 => '1',
        2 => '2',
        3 => '3',
        4 => '4',
        5 => '5',
        6 => '6',
        7 => '7',
        8 => '8',
        _ => '9',
    }
}

/// The decimal digits of `n`.
pub fn decimal_chars(n: u64) -> (chars: Vec<char>)
    ensures
        chars@ == decimal(n as nat),
{
    let mut rest = n;
    let mut chars: Vec<char> = Vec::new();
    while rest >= 10
        invariant
            decimal(n as nat) == decimal(rest as nat) + chars@,
        decreases rest,
    {
        let d = digit((rest % 10) as u8);
        chars.insert(0, d);
        assert(decimal(rest as nat) == decimal((rest / 10) as nat).push(d));
        rest = rest / 10;
    }
    chars.insert(0, digit(rest as u8));
    assert(decimal(n as nat) =~= chars@);
    chars
}

/// Appends `n` zero-padded to `width` characters after its sign, as
/// `{:0width$}` formats it.
pub fn push_padded(text: &mut String, n: i64, width: usize)
    ensures
        final(text)@ == old(text)@ + padded_decimal(n as int, width as int),
{
    let magnitude: u64 = if n < 0 {
        (0i128 - n as i128) as u64
    } else {
        n as u64
    };
    let digits = decimal_chars(magnitude);
    let mut padded: Vec<char> = Vec::new();
    let mut target: usize = width;
    if n < 0 {
        padded.push('-');
        target = if width > 0 {
            width - 1
        } else {
            0
        };
    }
    let ghost sign = padded@;
    let mut k: usize = digits.len();
    while k < target
        invariant
            digits@ == decimal(magnitude as nat),
            padded@ == sign + zeros(k - digits.len()),
            digits.len() <= k <= (if target > digits.len() { target } else { digits.len() }),
        decreases target - k,
    {
        padded.push('0');
        k = k + 1;
        assert(zeros(k - digits.len()) =~= zeros(k - 1 - digits.len()).push('0'));
    }
    let ghost before = padded@;
    let mut i: usize = 0;
    while i < digits.len()
        invariant
            padded@ == before + digits@.subrange(0, i as int),
            i <= digits.len(),
        decreases digits.len() - i,
    {
        padded.push(digits[i]);
        i = i + 1;
        assert(padded@ =~= before + digits@.subrange(0, i as int));
    }
    proof {
        assert(digits@.subrange(0, digits.len() as int) =~= digits@);
        assert(zeros(k - digits.len()) =~= zeros(target - digits.len()));
        if n < 0 {
            assert(padded@ =~= padded_decimal(n as int, width as int));
        } else {
            assert(padded@ =~= padded_decimal(n as int, width as int));
        }
    }
    push_chars(text, &padded);
}

/// Whether `c` has the Unicode `White_Space` property.
pub fn white_space(c: char) -> (r: bool)
    ensures
        r == is_white_space(c),
{
    ('\u{9}' <= c && c <= '\u{d}') || c == ' ' || c == '\u{85}' || c == '\u{a0}' || c
        == '\u{1680}' || ('\u{2000}' <= c && c <= '\u{200a}') || c == '\u{2028}' || c
        == '\u{2029}' || c == '\u{202f}' || c == '\u{205f}' || c == '\u{3000}'
}


/// The bounds of `chars` without its leading and trailing white space.
pub fn trim_bounds(chars: &Vec<char>) -> (bounds: (usize, usize))
    ensures
        bounds.0 <= bounds.1 <= chars.len(),
        chars@.subrange(bounds.0 as int, bounds.1 as int) == trimmed(chars@),
{
    let len = chars.len();
    let mut start: usize = 0;
    assert(chars@.subrange(0, len as int) =~= chars@);
    while start < len && white_space(chars[start])
        invariant
            start <= len == chars.len(),
            trimmed(chars@) == trimmed(chars@.subrange(start as int, len as int)),
        decreases len - start,
    {
        let ghost t = chars@.subrange(start as int, len as int);
        assert(t.drop_first() =~= chars@.subrange(start + 1, len as int));
        start = start + 1;
    }
    let mut end: usize = len;
    while end > start && white_space(chars[end - 1])
        invariant
            start <= end <= len == chars.len(),
            trimmed(chars@) == trimmed(chars@.subrange(start as int, end as int)),
            start < len ==> !is_white_space(chars@[start as int]),
        decreases end - start,
    {
        let ghost t = chars@.subrange(start as int, end as int);
        assert(t.drop_last() =~= chars@.subrange(start as int, end - 1));
        if end - 1 == start {
            assert(false);
        }
        end = end - 1;
    }
    proof {
        let t = chars@.subrange(start as int, end as int);
        if start < end {
            assert(t[0] == chars@[start as int]);
            assert(t.last() == chars@[end - 1]);
        }
    }
    (start, end)
}

/// The position of the first `c` in `chars[from..to]`, counted from `from`.
pub fn find_char(chars: &Vec<char>, from: usize, to: usize, c: char) -> (found: Option<usize>)
    requires
        from <= to <= chars.len(),
    ensures
        match found {
            Some(k) => first_index(chars@.subrange(from as int, to as int), c) == Some(k - from),
            None => first_index(chars@.subrange(from as int, to as int), c) is None,
        },
        found matches Some(k) ==> from <= k < to && chars@[k as int] == c,
{
    let ghost s = chars@.subrange(from as int, to as int);
    let mut k: usize = from;
    while k < to
        invariant
            from <= k <= to <= chars.len(),
            s == chars@.subrange(from as int, to as int),
            forall|j: int| 0 <= j < k - from ==> s[j] != c,
        decreases to - k,
    {
        if chars[k] == c {
            proof {
                lemma_first_index_at(s, c, k - from);
            }
            return Some(k);
        }
        k = k + 1;
    }
    proof {
        lemma_first_index_none(s, c);
    }
    None
}

/// Parses `chars[start..end]` in Rust's integer syntax, with `-` allowed
/// when `signed`, as an integer of the range `lo..=hi`.
pub fn parse_integer_chars(
    chars: &Vec<char>,
    start: usize,
    end: usize,
    signed: bool,
    lo: i64,
    hi: i64,
) -> (value: Option<i64>)
    requires
        start <= end <= chars.len(),
        -0x1_0000_0000 <= lo <= 0 <= hi <= 0x1_0000_0000,
    ensures
        match parse_integer(chars@.subrange(start as int, end as int), signed, lo as int, hi as int) {
            Some(v) => value == Some(v as i64),
            None => value is None,
        },
{
    let ghost t = chars@.subrange(start as int, end as int);
    if start == end {
        return None;
    }
    let first = chars[start];
    if (first == '+' || first == '-') && end - start == 1 {
        return None;
    }
    let negative = first == '-' && signed;
    let from: usize = if first == '+' || negative {
        start + 1
    } else {
        start
    };
    let ghost digits = chars@.subrange(from as int, end as int);
    proof {
        if from == start + 1 {
            assert(t.drop_first() =~= digits);
        } else {
            assert(t =~= digits);
            if first == '-' {
                assert(!is_digit(digits[0]));
            }
        }
        assert(integer_value(t, signed) == if all_digits(digits) {
            Some(if negative { -digits_value(digits) } else { digits_value(digits) })
        } else {
            None::<int>
        });
    }
    let limit: i64 = if negative {
        0 - lo
    } else {
        hi
    };
    let mut acc: i64 = 0;
    let mut i: usize = from;
    while i < end
        invariant
            start <= from <= i <= end <= chars.len(),
            digits == chars@.subrange(from as int, end as int),
            t == chars@.subrange(start as int, end as int),
            integer_value(t, signed) == if all_digits(digits) {
                Some(if negative { -digits_value(digits) } else { digits_value(digits) })
            } else {
                None::<int>
            },
            limit == if negative { -lo } else { hi as int },
            -0x1_0000_0000 <= lo <= 0 <= hi <= 0x1_0000_0000,
            0 <= acc <= limit <= 0x1_0000_0000,
            acc == digits_value(digits.subrange(0, i - from)),
            all_digits(digits.subrange(0, i - from)),
        decreases end - i,
    {
        let c = chars[i];
        if !('0' <= c && c <= '9') {
            proof {
                assert(digits[i - from] == c);
            }
            return None;
        }
        let d = (c as u32 - '0' as u32) as i64;
        let ghost before = digits.subrange(0, i - from);
        let ghost after = digits.subrange(0, i + 1 - from);
        proof {
            assert(after.drop_last() =~= before);
            assert(after.last() == c);
            assert forall|j: int| 0 <= j < after.len() implies is_digit(#[trigger] after[j]) by {
                if j < before.len() {
                    assert(after[j] == before[j]);
                }
            }
        }
        acc = acc * 10 + d;
        i = i + 1;
        if acc > limit {
            proof {
                if all_digits(digits) {
                    lemma_prefix_value(digits, i - from);
                }
            }
            return None;
        }
    }
    proof {
        assert(digits.subrange(0, end - from) =~= digits);
    }
    if negative {
        Some(0 - acc)
    } else {
        Some(acc)
    }
}

/// The uppercase mapping of `c` that `char::to_uppercase` yields.
pub uninterp spec fn uppercase_of(c: char) -> Seq<char>;

/// The characters of `c`'s uppercase mapping, from `char::to_uppercase`:
/// one or more characters, which are `c` itself for an ASCII character
/// other than a lowercase letter, and the matching capital for an ASCII
/// lowercase letter.
#[verifier::external_body]
pub(crate) fn uppercase(c: char) -> (upper: Vec<char>)
    ensures
        upper@ == uppercase_of(c),
        upper@.len() >= 1,
        'a' <= c <= 'z' ==> upper@ == seq![(c as int - 32) as char],
        c <= '\u{7f}' && !('a' <= c <= 'z') ==> upper@ == seq![c],
{
    c.to_uppercase().collect()
}

/// Appends `more` to `text`.
pub(crate) fn push_str(text: &mut String, more: &str)
    ensures
        final(text)@ == old(text)@ + more@,
{
    text.append(more);
}

/// Whether `a` and `b` hold the same text.
pub fn same_text(a: &str, b: &str) -> (same: bool)
    ensures
        same == (a@ == b@),
{
    let x = chars_of(a);
    let y = chars_of(b);
    if x.len() != y.len() {
        return false;
    }
    let mut i: usize = 0;
    while i < x.len()
        invariant
            i <= x.len(),
            x.len() == y.len(),
            x@ == a@,
            y@ == b@,
            forall|j: int| 0 <= j < i ==> x@[j] == y@[j],
        decreases x.len() - i,
    {
        if x[i] != y[i] {
            return false;
        }
        i = i + 1;
    }
    proof {
        assert(x@ =~= y@);
    }
    true
}

} // verus!
