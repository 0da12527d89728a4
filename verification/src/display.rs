//! Texts cut down to one short line, for messages.
//!
//! Lengths are counted in bytes of UTF-8, and a cut may only fall between two
//! characters.

use crate::text::{chars_of, string_of};
use vstd::prelude::*;
use vstd::string::StringExecFns;
use vstd::utf8::{char_is_scalar, encode_scalar, encode_utf8};

verus! {

/// The length, in bytes, to which the tool cuts the texts that it shows.
pub const DISPLAY_LEN: usize = 50;

/// The number of bytes that `c` takes in UTF-8.
pub open spec fn utf8_width(c: char) -> int {
    let u = c as u32;
    if u < 0x80 {
        1
    } else if u < 0x800 {
        2
    } else if u < 0x10000 {
        3
    } else {
        4
    }
}

/// The number of bytes that `s` takes in UTF-8.
pub open spec fn byte_len(s: Seq<char>) -> int
    decreases s.len(),
{
    if s.len() == 0 {
        0
    } else {
        byte_len(s.drop_last()) + utf8_width(s.last())
    }
}

/// `text` on one line: every line feed is a space, and carriage returns are
/// gone.
pub open spec fn one_line(text: Seq<char>) -> Seq<char> {
    text.filter(|c: char| c != '\r').map_values(
        |c: char|
            if c == '\n' {
                ' '
            } else {
                c
            },
    )
}

/// The longest beginning of `s` that takes at most `limit` bytes.
pub open spec fn prefix_within(s: Seq<char>, limit: int) -> Seq<char>
    decreases s.len(),
{
    if s.len() == 0 || utf8_width(s[0]) > limit {
        Seq::empty()
    } else {
        seq![s[0]] + prefix_within(s.drop_first(), limit - utf8_width(s[0]))
    }
}

/// Whether `text`, on one line, is at most `max_len` bytes long or can be cut
/// after exactly `max_len` bytes.
pub open spec fn can_cut(text: Seq<char>, max_len: int) -> bool {
    let line = one_line(text);
    byte_len(line) <= max_len || byte_len(prefix_within(line, max_len)) == max_len
}

/// What is shown of `text`: all of it on one line if that is at most
/// `max_len` bytes long, else its longest beginning within `max_len` bytes,
/// followed by three dots.
pub open spec fn shown(text: Seq<char>, max_len: int) -> Seq<char> {
    let line = one_line(text);
    if byte_len(line) <= max_len {
        line
    } else {
        prefix_within(line, max_len) + "..."@
    }
}

/// The bytes of two texts in a row are the bytes of the first, then those of
/// the second.
pub proof fn encode_utf8_concat(a: Seq<char>, b: Seq<char>)
    ensures
        encode_utf8(a + b) == encode_utf8(a) + encode_utf8(b),
    decreases a.len(),
{
    if a.len() == 0 {
        assert(a + b == b);
        assert(encode_utf8(a) + encode_utf8(b) == encode_utf8(b));
    } else {
        encode_utf8_concat(a.drop_first(), b);
        assert((a + b).drop_first() == a.drop_first() + b);
        assert(encode_scalar(a[0] as u32) + (encode_utf8(a.drop_first()) + encode_utf8(b)) == (
        encode_scalar(a[0] as u32) + encode_utf8(a.drop_first())) + encode_utf8(b));
    }
}

/// `byte_len` counts the bytes of the UTF-8 encoding.
pub proof fn byte_len_is_encoded_len(s: Seq<char>)
    ensures
        byte_len(s) == encode_utf8(s).len(),
    decreases s.len(),
{
    if s.len() > 0 {
        let c = s.last();
        byte_len_is_encoded_len(s.drop_last());
        encode_utf8_concat(s.drop_last(), seq![c]);
        assert(s.drop_last() + seq![c] == s);
        char_is_scalar(c);
        assert(seq![c].drop_first().len() == 0);
        assert(encode_utf8(seq![c]) == encode_scalar(c as u32) + encode_utf8(
            seq![c].drop_first(),
        ));
        assert(encode_scalar(c as u32).len() == utf8_width(c));
    }
}

/// Bytes add up over the parts of a text.
pub proof fn byte_len_concat(a: Seq<char>, b: Seq<char>)
    ensures
        byte_len(a + b) == byte_len(a) + byte_len(b),
        byte_len(a) >= 0,
    decreases b.len(),
{
    if b.len() == 0 {
        assert(a + b == a);
        byte_len_nonnegative(a);
    } else {
        byte_len_concat(a, b.drop_last());
        assert((a + b).drop_last() == a + b.drop_last());
    }
}

proof fn byte_len_nonnegative(s: Seq<char>)
    ensures
        byte_len(s) >= 0,
    decreases s.len(),
{
    if s.len() > 0 {
        byte_len_nonnegative(s.drop_last());
    }
}

/// `prefix_within` is the longest beginning that fits: it gives the number
/// `count` of its characters, such that the first `count` characters of `s`
/// take at most `limit` bytes and one more would take more.
pub proof fn prefix_within_is_longest(s: Seq<char>, limit: int) -> (count: int)
    requires
        limit >= 0,
    ensures
        0 <= count <= s.len(),
        prefix_within(s, limit) == s.take(count),
        byte_len(s.take(count)) <= limit,
        count < s.len() ==> byte_len(s.take(count + 1)) > limit,
    decreases s.len(),
{
    if s.len() == 0 || utf8_width(s[0]) > limit {
        assert(s.take(0).len() == 0);
        assert(byte_len(s.take(0)) == 0);
        if s.len() > 0 {
            assert(s.take(1).drop_last() == s.take(0));
            assert(s.take(1).last() == s[0]);
            assert(byte_len(s.take(1)) == utf8_width(s[0]));
        }
        0
    } else {
        let first = seq![s[0]];
        let rest = s.drop_first();
        let inner = prefix_within_is_longest(rest, limit - utf8_width(s[0]));
        assert(first.drop_last().len() == 0);
        assert(byte_len(first.drop_last()) == 0);
        assert(byte_len(first) == utf8_width(s[0]));
        assert(first + rest.take(inner) == s.take(inner + 1));
        byte_len_concat(first, rest.take(inner));
        if inner < rest.len() {
            assert(first + rest.take(inner + 1) == s.take(inner + 2));
            byte_len_concat(first, rest.take(inner + 1));
        }
        inner + 1
    }
}

/// The number of bytes that `c` takes in UTF-8.
pub fn char_width(c: char) -> (width: usize)
    ensures
        width == utf8_width(c),
        1 <= width <= 4,
{
    let u = c as u32;
    if u < 0x80 {
        1
    } else if u < 0x800 {
        2
    } else if u < 0x10000 {
        3
    } else {
        4
    }
}

/// The characters of `text` on one line.
fn one_line_chars(text: &str) -> (line: Vec<char>)
    ensures
        line@ == one_line(text@),
{
    let chars = chars_of(text);
    let mut line: Vec<char> = Vec::new();
    let ghost keep = |c: char| c != '\r';
    let ghost flat = |c: char|
        if c == '\n' {
            ' '
        } else {
            c
        };
    let mut i: usize = 0;
    proof {
        reveal_with_fuel(Seq::<_>::filter, 1);
        assert(chars@.take(0).len() == 0);
    }
    while i < chars.len()
        invariant
            i <= chars.len(),
            chars@ == text@,
            keep == (|c: char| c != '\r'),
            flat == (|c: char|
                if c == '\n' {
                    ' '
                } else {
                    c
                }),
            line@ == chars@.take(i as int).filter(keep).map_values(flat),
        decreases chars.len() - i,
    {
        let c = chars[i];
        proof {
            reveal_with_fuel(Seq::<_>::filter, 2);
            let grown = chars@.take(i + 1);
            assert(grown.drop_last() == chars@.take(i as int));
            assert(grown.last() == c);
            if c != '\r' {
                assert(grown.filter(keep) == chars@.take(i as int).filter(keep).push(c));
                assert(grown.filter(keep).map_values(flat) == line@.push(flat(c)));
            } else {
                assert(grown.filter(keep) == chars@.take(i as int).filter(keep));
            }
        }
        if c == '\n' {
            line.push(' ');
        } else if c != '\r' {
            line.push(c);
        }
        i += 1;
    }
    assert(chars@.take(chars.len() as int) == chars@);
    line
}

/// The number of characters at the beginning of `line` that fit in `limit`
/// bytes together, and the number of bytes that they take.
fn count_within(line: &Vec<char>, limit: usize) -> (fit: (usize, usize))
    ensures
        fit.0 <= line.len(),
        line@.take(fit.0 as int) == prefix_within(line@, limit as int),
        fit.0 == line.len() <==> byte_len(line@) <= limit,
        fit.1 == byte_len(line@.take(fit.0 as int)),
        fit.1 <= limit,
{
    let mut count: usize = 0;
    let mut used: usize = 0;
    assert(line@.take(0) == Seq::<char>::empty());
    assert(line@.skip(0) == line@);
    assert(Seq::<char>::empty() + prefix_within(line@, limit as int) == prefix_within(
        line@,
        limit as int,
    ));
    while count < line.len() && char_width(line[count]) <= limit - used
        invariant
            count <= line.len(),
            used <= limit,
            used == byte_len(line@.take(count as int)),
            prefix_within(line@, limit as int) == line@.take(count as int) + prefix_within(
                line@.skip(count as int),
                limit - used,
            ),
        decreases line.len() - count,
    {
        proof {
            let rest = line@.skip(count as int);
            assert(rest.drop_first() == line@.skip(count + 1));
            assert(line@.take(count + 1).drop_last() == line@.take(count as int));
            assert(line@.take(count as int) + (seq![rest[0]] + prefix_within(
                rest.drop_first(),
                limit - used - utf8_width(rest[0]),
            )) == line@.take(count + 1) + prefix_within(
                rest.drop_first(),
                limit - used - utf8_width(rest[0]),
            ));
        }
        used += char_width(line[count]);
        count += 1;
    }
    proof {
        let rest = line@.skip(count as int);
        assert(prefix_within(rest, limit - used) == Seq::<char>::empty());
        assert(line@.take(count as int) + Seq::<char>::empty() == line@.take(count as int));
        if count == line.len() {
            assert(line@.take(count as int) == line@);
        } else {
            assert(line@.take(count + 1).drop_last() == line@.take(count as int));
            assert(line@.take(count + 1) + line@.skip(count + 1) == line@);
            byte_len_concat(line@.take(count + 1), line@.skip(count + 1));
            byte_len_nonnegative(line@.skip(count + 1));
        }
    }
    (count, used)
}

/// Tells whether `truncate_for_display` can cut `text` to `max_len` bytes.
pub fn can_truncate(text: &str, max_len: usize) -> (ok: bool)
    ensures
        ok == can_cut(text@, max_len as int),
{
    let line = one_line_chars(text);
    let (count, used) = count_within(&line, max_len);
    count == line.len() || used == max_len
}

/// `text` for a message: on one line, and cut to `max_len` bytes with three
/// dots behind where it is longer.
pub fn truncate_for_display(text: &str, max_len: usize) -> (line: String)
    requires
        can_cut(text@, max_len as int),
    ensures
        line@ == shown(text@, max_len as int),
{
    let chars = one_line_chars(text);
    let (count, _) = count_within(&chars, max_len);
    let mut line = string_of(&chars, 0, count);
    assert(chars@.subrange(0, count as int) == chars@.take(count as int));
    if count < chars.len() {
        line.append("...");
    } else {
        assert(chars@.take(count as int) == chars@);
    }
    line
}

} // verus!
