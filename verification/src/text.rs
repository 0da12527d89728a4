//! Character sequences: the operations on text that the rest of the crate is
//! stated in.
//!
//! Every operation has a meaning over `Seq<char>` and an executable form over
//! a range of a `Vec<char>`, so that callers can cut a text apart without
//! copying it.

use vstd::prelude::*;
use vstd::string::StringExecFns;

verus! {

/// `String::push` appends one character.
pub assume_specification[ String::push ](s: &mut String, c: char)
    ensures
        final(s)@ == old(s)@.push(c),
;

/// Characters with the Unicode property `White_Space`.
pub open spec fn is_space(c: char) -> bool {
    let u = c as u32;
    ||| 0x09 <= u <= 0x0D
    ||| u == 0x20
    ||| u == 0x85
    ||| u == 0xA0
    ||| u == 0x1680
    ||| 0x2000 <= u <= 0x200A
    ||| u == 0x2028
    ||| u == 0x2029
    ||| u == 0x202F
    ||| u == 0x205F
    ||| u == 0x3000
}

/// `s` without its leading white space.
pub open spec fn trim_start(s: Seq<char>) -> Seq<char>
    decreases s.len(),
{
    if s.len() > 0 && is_space(s[0]) {
        trim_start(s.drop_first())
    } else {
        s
    }
}

/// `s` without its trailing white space.
pub open spec fn trim_end(s: Seq<char>) -> Seq<char>
    decreases s.len(),
{
    if s.len() > 0 && is_space(s.last()) {
        trim_end(s.drop_last())
    } else {
        s
    }
}

/// `s` without white space at either end.
pub open spec fn trim(s: Seq<char>) -> Seq<char> {
    trim_end(trim_start(s))
}

/// A text that holds nothing but white space.
pub open spec fn is_blank(s: Seq<char>) -> bool {
    trim(s).len() == 0
}

/// `s` with every occurrence of `pattern` taken out, found from the left and
/// never overlapping. An empty pattern takes nothing out.
pub open spec fn remove_all(s: Seq<char>, pattern: Seq<char>) -> Seq<char>
    decreases s.len(),
{
    if pattern.len() == 0 || s.len() < pattern.len() {
        s
    } else if s.take(pattern.len() as int) == pattern {
        remove_all(s.skip(pattern.len() as int), pattern)
    } else {
        seq![s[0]] + remove_all(s.drop_first(), pattern)
    }
}

/// The character that writes the digit `d`.
pub open spec fn digit_char(d: int) -> char {
    if d == 0 {
        '0'
    } else if d == 1 {
        '1'
    } else if d == 2 {
        '2'
    } else if d == 3 {
        '3'
    } else if d == 4 {
        '4'
    } else if d == 5 {
        '5'
    } else if d == 6 {
        '6'
    } else if d == 7 {
        '7'
    } else if d == 8 {
        '8'
    } else {
        '9'
    }
}

/// `n` written in decimal, without leading zeros.
pub open spec fn decimal(n: nat) -> Seq<char>
    decreases n,
{
    if n < 10 {
        seq![digit_char(n as int)]
    } else {
        decimal(n / 10).push(digit_char((n % 10) as int))
    }
}

/// `n` written in decimal, with a minus sign before it where it is negative.
pub open spec fn signed_decimal(n: int) -> Seq<char> {
    if n < 0 {
        seq!['-'] + decimal((-n) as nat)
    } else {
        decimal(n as nat)
    }
}

/// An exit code as messages show it: `None`, or the number inside `Some(`
/// and `)`.
pub open spec fn code_text(code: Option<i32>) -> Seq<char> {
    match code {
        Some(n) => "Some("@ + signed_decimal(n as int) + ")"@,
        None => "None"@,
    }
}

/// The position of the first `c` in `s`, or the length of `s` if there is none.
pub open spec fn first_index_of(s: Seq<char>, c: char) -> int
    decreases s.len(),
{
    if s.len() == 0 || s[0] == c {
        0
    } else {
        1 + first_index_of(s.drop_first(), c)
    }
}

/// `first_index_of` is the least position that holds `c`, or the length.
pub proof fn first_index_of_bounds(s: Seq<char>, c: char)
    ensures
        0 <= first_index_of(s, c) <= s.len(),
        first_index_of(s, c) < s.len() ==> s[first_index_of(s, c)] == c,
        forall|i: int| 0 <= i < first_index_of(s, c) ==> s[i] != c,
    decreases s.len(),
{
    if s.len() > 0 && s[0] != c {
        first_index_of_bounds(s.drop_first(), c);
        assert forall|i: int| 0 <= i < first_index_of(s, c) implies s[i] != c by {
            if i > 0 {
                assert(s[i] == s.drop_first()[i - 1]);
            }
        }
    }
}

/// Where `trim` cuts: it gives `(from, to)` such that `trim(s)` is
/// `s[from..to]`, all of `s` before `from` and from `to` on is white space,
/// and what is kept neither begins nor ends with white space.
pub proof fn trim_bounds(s: Seq<char>) -> (cut: (int, int))
    ensures
        0 <= cut.0 <= cut.1 <= s.len(),
        trim(s) == s.subrange(cut.0, cut.1),
        forall|i: int| 0 <= i < cut.0 || cut.1 <= i < s.len() ==> is_space(#[trigger] s[i]),
        cut.0 < cut.1 ==> !is_space(s[cut.0]) && !is_space(s[cut.1 - 1]),
{
    let from = trim_start_bound(s);
    let rest = s.skip(from);
    let kept = trim_end_bound(rest);
    assert(rest.take(kept) == s.subrange(from, from + kept));
    assert forall|i: int| 0 <= i < from || from + kept <= i < s.len() implies is_space(
        #[trigger] s[i],
    ) by {
        if i >= from {
            assert(s[i] == rest[i - from]);
        }
    }
    if kept > 0 {
        assert(s[from + kept - 1] == rest[kept - 1]);
    }
    (from, from + kept)
}

/// Trimming what is trimmed changes nothing.
pub proof fn trim_is_idempotent(s: Seq<char>)
    ensures
        trim(trim(s)) == trim(s),
{
    let cut = trim_bounds(s);
    let t = trim(s);
    if t.len() > 0 {
        assert(t[0] == s[cut.0]);
        assert(t.last() == s[cut.1 - 1]);
    }
}

proof fn trim_start_bound(s: Seq<char>) -> (from: int)
    ensures
        0 <= from <= s.len(),
        trim_start(s) == s.skip(from),
        forall|i: int| 0 <= i < from ==> is_space(#[trigger] s[i]),
        from < s.len() ==> !is_space(s[from]),
    decreases s.len(),
{
    if s.len() > 0 && is_space(s[0]) {
        let inner = trim_start_bound(s.drop_first());
        assert(s.drop_first().skip(inner) == s.skip(inner + 1));
        assert forall|i: int| 0 <= i < inner + 1 implies is_space(#[trigger] s[i]) by {
            if i > 0 {
                assert(s[i] == s.drop_first()[i - 1]);
            }
        }
        inner + 1
    } else {
        assert(s.skip(0) == s);
        0
    }
}

proof fn trim_end_bound(s: Seq<char>) -> (to: int)
    ensures
        0 <= to <= s.len(),
        trim_end(s) == s.take(to),
        forall|i: int| to <= i < s.len() ==> is_space(#[trigger] s[i]),
        0 < to ==> !is_space(s[to - 1]),
    decreases s.len(),
{
    if s.len() > 0 && is_space(s.last()) {
        let inner = trim_end_bound(s.drop_last());
        assert(s.drop_last().take(inner) == s.take(inner));
        assert forall|i: int| inner <= i < s.len() implies is_space(#[trigger] s[i]) by {
            if i < s.len() - 1 {
                assert(s[i] == s.drop_last()[i]);
            }
        }
        inner
    } else {
        assert(s.take(s.len() as int) == s);
        s.len() as int
    }
}

/// Tells whether `c` is white space.
pub fn is_whitespace(c: char) -> (space: bool)
    ensures
        space == is_space(c),
{
    let u = c as u32;
    (0x09 <= u && u <= 0x0D) || u == 0x20 || u == 0x85 || u == 0xA0 || u == 0x1680 || (0x2000 <= u
        && u <= 0x200A) || u == 0x2028 || u == 0x2029 || u == 0x202F || u == 0x205F || u == 0x3000
}

/// The characters of `s`, in order.
pub fn chars_of(s: &str) -> (chars: Vec<char>)
    ensures
        chars@ == s@,
{
    let mut chars: Vec<char> = Vec::new();
    for c in it: s.chars()
        invariant
            chars@ == it.seq().take(it.index() as int),
            it.seq() == s@,
    {
        chars.push(c);
    }
    chars
}

/// The text made of `chars[from..to]`.
pub fn string_of(chars: &Vec<char>, from: usize, to: usize) -> (s: String)
    requires
        from <= to <= chars.len(),
    ensures
        s@ == chars@.subrange(from as int, to as int),
{
    let mut s = String::new();
    let mut i = from;
    while i < to
        invariant
            from <= i <= to <= chars.len(),
            s@ == chars@.subrange(from as int, i as int),
        decreases to - i,
    {
        s.push(chars[i]);
        i += 1;
    }
    s
}

/// A copy of `chars[from..to]`.
pub fn sub_vec(chars: &Vec<char>, from: usize, to: usize) -> (part: Vec<char>)
    requires
        from <= to <= chars.len(),
    ensures
        part@ == chars@.subrange(from as int, to as int),
{
    let mut part: Vec<char> = Vec::new();
    let mut i = from;
    while i < to
        invariant
            from <= i <= to <= chars.len(),
            part@ == chars@.subrange(from as int, i as int),
        decreases to - i,
    {
        part.push(chars[i]);
        i += 1;
    }
    part
}

/// Narrows `chars[from..to]` to what is left of it without white space at
/// either end.
pub fn trim_range(chars: &Vec<char>, from: usize, to: usize) -> (kept: (usize, usize))
    requires
        from <= to <= chars.len(),
    ensures
        from <= kept.0 <= kept.1 <= to,
        chars@.subrange(kept.0 as int, kept.1 as int) == trim(
            chars@.subrange(from as int, to as int),
        ),
{
    let mut lo = from;
    while lo < to && is_whitespace(chars[lo])
        invariant
            from <= lo <= to <= chars.len(),
            trim_start(chars@.subrange(lo as int, to as int)) == trim_start(
                chars@.subrange(from as int, to as int),
            ),
        decreases to - lo,
    {
        assert(chars@.subrange(lo as int, to as int).drop_first() == chars@.subrange(
            lo as int + 1,
            to as int,
        ));
        lo += 1;
    }
    let mut hi = to;
    while lo < hi && is_whitespace(chars[hi - 1])
        invariant
            lo <= hi <= to <= chars.len(),
            trim_end(chars@.subrange(lo as int, hi as int)) == trim_end(
                chars@.subrange(lo as int, to as int),
            ),
        decreases hi - lo,
    {
        assert(chars@.subrange(lo as int, hi as int).drop_last() == chars@.subrange(
            lo as int,
            hi as int - 1,
        ));
        hi -= 1;
    }
    (lo, hi)
}

/// Tells whether `chars[at..]` begins with `pattern`.
pub fn starts_at(chars: &Vec<char>, at: usize, pattern: &Vec<char>) -> (found: bool)
    requires
        at <= chars.len(),
    ensures
        found == (at + pattern.len() <= chars.len() && chars@.subrange(
            at as int,
            at + pattern.len(),
        ) == pattern@),
{
    if pattern.len() > chars.len() - at {
        return false;
    }
    let mut i: usize = 0;
    while i < pattern.len()
        invariant
            at + pattern.len() <= chars.len(),
            i <= pattern.len(),
            chars@.subrange(at as int, at + i) == pattern@.take(i as int),
        decreases pattern.len() - i,
    {
        if chars[at + i] != pattern[i] {
            assert(chars@.subrange(at as int, at + pattern.len())[i as int] != pattern@[i as int]);
            return false;
        }
        assert(chars@.subrange(at as int, at + i + 1) == chars@.subrange(at as int, at + i).push(
            chars@[at + i],
        ));
        assert(pattern@.take(i + 1) == pattern@.take(i as int).push(pattern@[i as int]));
        i += 1;
    }
    assert(pattern@.take(pattern.len() as int) == pattern@);
    true
}

/// Tells whether `chars[from..to]` is exactly `word`.
pub fn range_is(chars: &Vec<char>, from: usize, to: usize, word: &Vec<char>) -> (same: bool)
    requires
        from <= to <= chars.len(),
    ensures
        same == (chars@.subrange(from as int, to as int) == word@),
{
    to - from == word.len() && starts_at(chars, from, word)
}

/// The position of the first `c` in `chars[from..to]`, or `to` if there is
/// none.
pub fn find_char(chars: &Vec<char>, from: usize, to: usize, c: char) -> (at: usize)
    requires
        from <= to <= chars.len(),
    ensures
        at == from + first_index_of(chars@.subrange(from as int, to as int), c),
        from <= at <= to,
{
    let mut at = from;
    while at < to && chars[at] != c
        invariant
            from <= at <= to <= chars.len(),
            from + first_index_of(chars@.subrange(from as int, to as int), c) == at
                + first_index_of(chars@.subrange(at as int, to as int), c),
        decreases to - at,
    {
        assert(chars@.subrange(at as int, to as int).drop_first() == chars@.subrange(
            at as int + 1,
            to as int,
        ));
        at += 1;
    }
    at
}

/// Copies `chars` without the occurrences of `pattern`.
pub fn remove_pattern(chars: &Vec<char>, pattern: &Vec<char>) -> (kept: Vec<char>)
    ensures
        kept@ == remove_all(chars@, pattern@),
{
    let mut kept: Vec<char> = Vec::new();
    let mut i: usize = 0;
    assert(chars@.skip(0) == chars@);
    assert(kept@ + chars@ == chars@);
    while i < chars.len()
        invariant
            i <= chars.len(),
            remove_all(chars@, pattern@) == kept@ + remove_all(chars@.skip(i as int), pattern@),
        decreases chars.len() - i,
    {
        let ghost rest = chars@.skip(i as int);
        if pattern.len() > 0 && starts_at(chars, i, pattern) {
            assert(rest.take(pattern.len() as int) == chars@.subrange(
                i as int,
                i + pattern.len(),
            ));
            assert(rest.skip(pattern.len() as int) == chars@.skip(i + pattern.len()));
            i += pattern.len();
        } else {
            assert(rest.drop_first() == chars@.skip(i + 1));
            assert(pattern.len() + i <= chars.len() ==> rest.take(pattern.len() as int)
                == chars@.subrange(i as int, i + pattern.len()));
            assert(remove_all(rest, pattern@) == seq![rest[0]] + remove_all(
                rest.drop_first(),
                pattern@,
            ));
            assert(kept@.push(chars@[i as int]) + remove_all(rest.drop_first(), pattern@) == kept@
                + (seq![rest[0]] + remove_all(rest.drop_first(), pattern@)));
            kept.push(chars[i]);
            i += 1;
        }
    }
    assert(chars@.skip(chars.len() as int).len() == 0);
    kept
}

/// Tells whether `text` is empty or white space only.
pub fn is_blank_text(text: &str) -> (blank: bool)
    ensures
        blank == is_blank(text@),
{
    let chars = chars_of(text);
    let (lo, hi) = trim_range(&chars, 0, chars.len());
    assert(chars@.subrange(0, chars.len() as int) == chars@);
    lo == hi
}

/// `text` without white space at either end.
pub fn trimmed(text: &str) -> (kept: String)
    ensures
        kept@ == trim(text@),
{
    let chars = chars_of(text);
    let (lo, hi) = trim_range(&chars, 0, chars.len());
    assert(chars@.subrange(0, chars.len() as int) == chars@);
    string_of(&chars, lo, hi)
}

/// The character that writes the digit `d`.
fn digit(d: u64) -> (c: char)
    requires
        d < 10,
    ensures
        c == digit_char(d as int),
{
    if d == 0 {
        '0'
    } else if d == 1 {
        '1'
    } else if d == 2 {
        '2'
    } else if d == 3 {
        '3'
    } else if d == 4 {
        '4'
    } else if d == 5 {
        '5'
    } else if d == 6 {
        '6'
    } else if d == 7 {
        '7'
    } else if d == 8 {
        '8'
    } else {
        '9'
    }
}

/// Appends `n` in decimal to `s`.
pub fn push_decimal(s: &mut String, n: u64)
    ensures
        final(s)@ == old(s)@ + decimal(n as nat),
    decreases n,
{
    if n >= 10 {
        push_decimal(s, n / 10);
    }
    s.push(digit(n % 10));
}

/// Appends `n` in decimal to `s`, with its sign where it is negative.
pub fn push_signed_decimal(s: &mut String, n: i32)
    ensures
        final(s)@ == old(s)@ + signed_decimal(n as int),
{
    if n < 0 {
        s.push('-');
        push_decimal(s, (-(n as i64)) as u64);
        assert(old(s)@.push('-') + decimal((-n) as nat) == old(s)@ + (seq!['-'] + decimal(
            (-n) as nat,
        )));
    } else {
        push_decimal(s, n as u64);
    }
}

/// Appends an exit code to `s` as messages show it.
pub fn push_code(s: &mut String, code: Option<i32>)
    ensures
        final(s)@ == old(s)@ + code_text(code),
{
    match code {
        Some(n) => {
            s.append("Some(");
            push_signed_decimal(s, n);
            s.append(")");
            assert(s@ == old(s)@ + ("Some("@ + signed_decimal(n as int) + ")"@));
        },
        None => {
            s.append("None");
        },
    }
}

} // verus!
