//! Text as sequences of characters: conversion between strings and character
//! vectors, decoding of raw bytes, splitting into lines and trimming.

use vstd::prelude::*;
use vstd::string::*;

verus! {

/// `String::push`: appends one character to the end of the string.
pub assume_specification[ String::push ](text: &mut String, c: char)
    ensures
        final(text)@ == old(text)@.push(c),
;

/// The text that `String::from_utf8_lossy` reads in `bytes`: the characters
/// encoded there, with U+FFFD in place of whatever is not valid UTF-8.
pub uninterp spec fn utf8_lossy(bytes: Seq<u8>) -> Seq<char>;

/// `String::from_utf8_lossy`, which depends on the bytes alone and never fails.
#[verifier::external_body]
pub(crate) fn from_utf8_lossy(bytes: &[u8]) -> (text: String)
    ensures
        text@ == utf8_lossy(bytes@),
{
    String::from_utf8_lossy(bytes).into_owned()
}

/// `s` without its leading run of `c`.
pub open spec fn trim_start_of(s: Seq<char>, c: char) -> Seq<char>
    decreases s.len(),
{
    if s.len() > 0 && s.first() == c {
        trim_start_of(s.drop_first(), c)
    } else {
        s
    }
}

/// `s` without its trailing run of `c`.
pub open spec fn trim_end_of(s: Seq<char>, c: char) -> Seq<char>
    decreases s.len(),
{
    if s.len() > 0 && s.last() == c {
        trim_end_of(s.drop_last(), c)
    } else {
        s
    }
}

/// `s` without its leading and trailing runs of `c`.
pub open spec fn trimmed(s: Seq<char>, c: char) -> Seq<char> {
    trim_end_of(trim_start_of(s, c), c)
}

/// `line` without one trailing carriage return.
pub open spec fn without_cr(line: Seq<char>) -> Seq<char> {
    if line.len() > 0 && line.last() == '\r' {
        line.drop_last()
    } else {
        line
    }
}

/// The lines that end inside `s`, each without its line feed and without a
/// carriage return before it, and the characters after the last line feed.
pub open spec fn scan_lines(s: Seq<char>) -> (Seq<Seq<char>>, Seq<char>)
    decreases s.len(),
{
    if s.len() == 0 {
        (Seq::empty(), Seq::empty())
    } else {
        let (ended, open) = scan_lines(s.drop_last());
        if s.last() == '\n' {
            (ended.push(without_cr(open)), Seq::empty())
        } else {
            (ended, open.push(s.last()))
        }
    }
}

/// The lines of `s`. A line ends at a line feed or at a carriage return
/// followed by one, neither of which belongs to the line; what follows the last
/// line feed is a line of its own unless it is empty.
pub open spec fn lines_of(s: Seq<char>) -> Seq<Seq<char>> {
    let (ended, open) = scan_lines(s);
    if open.len() > 0 {
        ended.push(open)
    } else {
        ended
    }
}

/// The views of the strings in `texts`.
pub open spec fn views_of(texts: Seq<String>) -> Seq<Seq<char>> {
    texts.map_values(|text: String| text@)
}

/// The characters of `text`, in order.
pub fn chars_of(text: &str) -> (chars: Vec<char>)
    ensures
        chars@ == text@,
{
    broadcast use group_string_axioms;

    let mut chars: Vec<char> = Vec::new();
    for c in it: text.chars()
        invariant
            it.seq() == text@,
            chars@ == it.seq().take(it.index() as int),
    {
        chars.push(c);
    }
    chars
}

/// The string made of `chars[from..to]`.
pub fn text_of(chars: &Vec<char>, from: usize, to: usize) -> (text: String)
    requires
        from <= to <= chars.len(),
    ensures
        text@ == chars@.subrange(from as int, to as int),
{
    let mut text = String::new();
    let mut i: usize = from;
    while i < to
        invariant
            from <= i <= to <= chars.len(),
            text@ == chars@.subrange(from as int, i as int),
        decreases to - i,
    {
        text.push(chars[i]);
        i += 1;
    }
    text
}

/// Whether two strings hold the same characters.
pub fn same_text(a: &str, b: &str) -> (same: bool)
    ensures
        same == (a@ == b@),
{
    let left = chars_of(a);
    let right = chars_of(b);
    if left.len() != right.len() {
        return false;
    }
    let mut i: usize = 0;
    while i < left.len()
        invariant
            left@ == a@,
            right@ == b@,
            left.len() == right.len(),
            i <= left.len(),
            left@.take(i as int) == right@.take(i as int),
        decreases left.len() - i,
    {
        if left[i] != right[i] {
            assert(a@[i as int] != b@[i as int]);
            return false;
        }
        assert(left@.take(i + 1) == left@.take(i as int).push(left@[i as int]));
        assert(right@.take(i + 1) == right@.take(i as int).push(right@[i as int]));
        i += 1;
    }
    assert(left@.take(left.len() as int) == left@);
    assert(right@.take(right.len() as int) == right@);
    true
}

/// The concatenation of `head` and `tail`.
pub fn joined(head: &str, tail: &str) -> (text: String)
    ensures
        text@ == head@ + tail@,
{
    let mut text = head.to_owned();
    text.append(tail);
    text
}

proof fn lemma_trim_start_skip(s: Seq<char>, c: char, n: int)
    requires
        0 <= n <= s.len(),
        forall|i: int| 0 <= i < n ==> s[i] == c,
    ensures
        trim_start_of(s, c) == trim_start_of(s.skip(n), c),
    decreases n,
{
    if n == 0 {
        assert(s.skip(0) == s);
    } else {
        lemma_trim_start_skip(s.drop_first(), c, n - 1);
        assert(s.drop_first().skip(n - 1) == s.skip(n));
    }
}

proof fn lemma_trim_end_take(s: Seq<char>, c: char, n: int)
    requires
        0 <= n <= s.len(),
        forall|i: int| n <= i < s.len() ==> s[i] == c,
    ensures
        trim_end_of(s, c) == trim_end_of(s.take(n), c),
    decreases s.len() - n,
{
    if n == s.len() {
        assert(s.take(n) == s);
    } else {
        lemma_trim_end_take(s.drop_last(), c, n);
        assert(s.drop_last().take(n) == s.take(n));
    }
}

/// What is trimmed is what lies between the leading and the trailing run of
/// `c`: a stretch of `s` that neither begins nor ends with `c`, with nothing
/// but `c` before it and after it.
pub proof fn lemma_trimmed_is_the_middle(s: Seq<char>, c: char)
    ensures
        trimmed(s, c).len() > 0 ==> trimmed(s, c).first() != c && trimmed(s, c).last() != c,
        exists|from: int, to: int|
            {
                &&& 0 <= from <= to <= s.len()
                &&& #[trigger] s.subrange(from, to) == trimmed(s, c)
                &&& forall|k: int| 0 <= k < from || to <= k < s.len() ==> s[k] == c
            },
{
    let from = lemma_trim_start_bounds(s, c);
    let rest = s.skip(from);
    let to = lemma_trim_end_bounds(rest, c);
    assert(rest.take(to) == s.subrange(from, from + to));
    assert forall|k: int| 0 <= k < from || from + to <= k < s.len() implies s[k] == c by {
        if k >= from + to {
            assert(rest[k - from] == s[k]);
        }
    }
    lemma_trim_end_keeps_start(rest, c);
}

/// The length of the leading run of `c` in `s`.
proof fn lemma_trim_start_bounds(s: Seq<char>, c: char) -> (from: int)
    ensures
        0 <= from <= s.len(),
        trim_start_of(s, c) == s.skip(from),
        forall|k: int| 0 <= k < from ==> s[k] == c,
        from < s.len() ==> s[from] != c,
    decreases s.len(),
{
    if s.len() > 0 && s.first() == c {
        let from = lemma_trim_start_bounds(s.drop_first(), c);
        assert(s.drop_first().skip(from) == s.skip(from + 1));
        assert forall|k: int| 0 <= k < from + 1 implies s[k] == c by {
            if k > 0 {
                assert(s.drop_first()[k - 1] == s[k]);
            }
        }
        from + 1
    } else {
        assert(s.skip(0) == s);
        0
    }
}

/// Where the trailing run of `c` in `s` begins.
proof fn lemma_trim_end_bounds(s: Seq<char>, c: char) -> (to: int)
    ensures
        0 <= to <= s.len(),
        trim_end_of(s, c) == s.take(to),
        forall|k: int| to <= k < s.len() ==> s[k] == c,
        to > 0 ==> s[to - 1] != c,
    decreases s.len(),
{
    if s.len() > 0 && s.last() == c {
        let to = lemma_trim_end_bounds(s.drop_last(), c);
        assert(s.drop_last().take(to) == s.take(to));
        assert forall|k: int| to <= k < s.len() implies s[k] == c by {
            if k < s.len() - 1 {
                assert(s.drop_last()[k] == s[k]);
            }
        }
        assert(to > 0 ==> s.drop_last()[to - 1] == s[to - 1]);
        to
    } else {
        assert(s.take(s.len() as int) == s);
        s.len() as int
    }
}

/// Trimming the end leaves the start as it is.
proof fn lemma_trim_end_keeps_start(s: Seq<char>, c: char)
    ensures
        trim_end_of(s, c).len() > 0 ==> trim_end_of(s, c).first() == s.first() && trim_end_of(
            s,
            c,
        ).last() != c,
    decreases s.len(),
{
    if s.len() > 0 && s.last() == c {
        lemma_trim_end_keeps_start(s.drop_last(), c);
    }
}

/// `text` without its leading and trailing runs of `c`.
pub fn trim_matches(text: &str, c: char) -> (kept: String)
    ensures
        kept@ == trimmed(text@, c),
{
    let chars = chars_of(text);
    let mut start: usize = 0;
    while start < chars.len() && chars[start] == c
        invariant
            start <= chars.len(),
            forall|i: int| 0 <= i < start ==> chars@[i] == c,
        decreases chars.len() - start,
    {
        start += 1;
    }
    let mut end: usize = chars.len();
    while end > start && chars[end - 1] == c
        invariant
            start <= end <= chars.len(),
            forall|i: int| end <= i < chars.len() ==> chars@[i] == c,
        decreases end,
    {
        end -= 1;
    }
    proof {
        let rest = chars@.skip(start as int);
        lemma_trim_start_skip(chars@, c, start as int);
        assert(trim_start_of(chars@, c) == rest);
        assert forall|i: int| end - start <= i < rest.len() implies rest[i] == c by {
            assert(rest[i] == chars@[i + start]);
        }
        lemma_trim_end_take(rest, c, end - start);
        assert(rest.take(end - start) == chars@.subrange(start as int, end as int));
    }
    text_of(&chars, start, end)
}

/// Whether `line` holds no line feed.
pub open spec fn is_one_line(line: Seq<char>) -> bool {
    forall|k: int| 0 <= k < line.len() ==> line[k] != '\n'
}

proof fn lemma_scan_lines_holds_lines(s: Seq<char>)
    ensures
        forall|i: int| 0 <= i < scan_lines(s).0.len() ==> is_one_line(#[trigger] scan_lines(s).0[i]),
        is_one_line(scan_lines(s).1),
    decreases s.len(),
{
    if s.len() > 0 {
        lemma_scan_lines_holds_lines(s.drop_last());
    }
}

/// A line holds no line feed, and the last line is not empty unless a line
/// feed ends it.
pub proof fn lemma_lines_are_lines(s: Seq<char>)
    ensures
        forall|i: int| 0 <= i < lines_of(s).len() ==> is_one_line(#[trigger] lines_of(s)[i]),
        s.len() > 0 && s.last() != '\n' ==> lines_of(s).len() > 0 && lines_of(s).last().len() > 0,
        s.len() == 0 ==> lines_of(s).len() == 0,
{
    lemma_scan_lines_holds_lines(s);
}

/// The lines of `text`.
pub fn split_lines(text: &str) -> (lines: Vec<String>)
    ensures
        views_of(lines@) == lines_of(text@),
{
    let chars = chars_of(text);
    let mut lines: Vec<String> = Vec::new();
    let mut start: usize = 0;
    let mut i: usize = 0;
    while i < chars.len()
        invariant
            start <= i <= chars.len(),
            scan_lines(chars@.take(i as int)) == (
                views_of(lines@),
                chars@.subrange(start as int, i as int),
            ),
        decreases chars.len() - i,
    {
        proof {
            assert(chars@.take(i + 1).drop_last() == chars@.take(i as int));
            assert(chars@.subrange(start as int, i as int).push(chars@[i as int])
                == chars@.subrange(start as int, i + 1));
        }
        if chars[i] == '\n' {
            let end = if i > start && chars[i - 1] == '\r' {
                i - 1
            } else {
                i
            };
            let line = text_of(&chars, start, end);
            proof {
                let open = chars@.subrange(start as int, i as int);
                if i > start && chars@[i - 1] == '\r' {
                    assert(open.drop_last() == chars@.subrange(start as int, i - 1));
                }
                assert(views_of(lines@.push(line)) == views_of(lines@).push(line@));
                assert(chars@.subrange(i + 1, i + 1) == Seq::<char>::empty());
            }
            lines.push(line);
            start = i + 1;
        }
        i += 1;
    }
    proof {
        assert(chars@.take(chars.len() as int) == chars@);
    }
    if start < chars.len() {
        let line = text_of(&chars, start, chars.len());
        proof {
            assert(views_of(lines@.push(line)) == views_of(lines@).push(line@));
        }
        lines.push(line);
    }
    lines
}

/// The lines of the text that `bytes` hold, read leniently.
pub fn chunk_lines(bytes: &[u8]) -> (lines: Vec<String>)
    ensures
        views_of(lines@) == lines_of(utf8_lossy(bytes@)),
{
    let text = from_utf8_lossy(bytes);
    split_lines(text.as_str())
}

} // verus!
