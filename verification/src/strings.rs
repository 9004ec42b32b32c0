//! Character sequences: the operations the renderers share, each with the
//! mathematical function it computes.

use vstd::prelude::*;
use vstd::string::*;
use vstd::utf8::is_ascii_chars;
use crate::bridge::{str_to_lowercase, unicode_lowercase};

verus! {

/// The parts one after another, in order.
pub open spec fn concat(parts: Seq<Seq<char>>) -> Seq<char>
    decreases parts.len(),
{
    if parts.len() == 0 {
        Seq::empty()
    } else {
        concat(parts.drop_last()) + parts.last()
    }
}

/// `unit` written `n` times.
pub open spec fn repeated(unit: Seq<char>, n: nat) -> Seq<char>
    decreases n,
{
    if n == 0 {
        Seq::empty()
    } else {
        repeated(unit, (n - 1) as nat) + unit
    }
}

/// The character of the decimal digit `d`, for `0 <= d <= 9`.
pub open spec fn digit_char(d: int) -> char {
    (48 + d) as char
}

/// `n` in decimal, without leading zeros.
pub open spec fn decimal(n: nat) -> Seq<char>
    decreases n,
{
    if n < 10 {
        seq![digit_char(n as int)]
    } else {
        decimal(n / 10).push(digit_char((n % 10) as int))
    }
}

/// The characters of `s`, one by one.
pub fn chars_of(s: &str) -> (v: Vec<char>)
    ensures
        v@ == s@,
{
    let mut v: Vec<char> = Vec::new();
    for c in it: s.chars()
        invariant
            v@ == it.seq().take(it.index() as int),
    {
        v.push(c);
    }
    v
}

/// The string whose characters are those of `v`.
pub fn string_of(v: &Vec<char>) -> (s: String)
    ensures
        s@ == v@,
{
    let mut s = String::new();
    let mut i: usize = 0;
    while i < v.len()
        invariant
            i <= v.len(),
            s@ == v@.take(i as int),
        decreases v.len() - i,
    {
        s.push(v[i]);
        i = i + 1;
    }
    s
}

fn digit(d: u8) -> (c: char)
    requires
        d < 10,
    ensures
        c == digit_char(d as int),
{
    (48u8 + d) as char
}

/// Appends `n` in decimal to `out`.
pub fn push_decimal(out: &mut String, n: u8)
    ensures
        final(out)@ == old(out)@ + decimal(n as nat),
{
    proof {
        reveal_with_fuel(decimal, 3);
    }
    if n >= 100 {
        out.push(digit(n / 100));
    }
    if n >= 10 {
        out.push(digit((n / 10) % 10));
    }
    out.push(digit(n % 10));
}

/// Appends `unit` to `out`, `n` times over.
pub fn push_repeated(out: &mut String, unit: &str, n: usize)
    ensures
        final(out)@ == old(out)@ + repeated(unit@, n as nat),
{
    let mut i: usize = 0;
    while i < n
        invariant
            i <= n,
            out@ == old(out)@ + repeated(unit@, i as nat),
        decreases n - i,
    {
        out.append(unit);
        i = i + 1;
    }
}

/// How many characters stand before the first line feed of `s`: all of
/// them, where it holds none.
pub open spec fn first_line_len(s: Seq<char>) -> nat
    decreases s.len(),
{
    if s.len() == 0 || s[0] == '\n' {
        0
    } else {
        1 + first_line_len(s.drop_first())
    }
}

/// `line` without the carriage return that ends it, if one does.
pub open spec fn without_cr(line: Seq<char>) -> Seq<char> {
    if line.len() > 0 && line.last() == '\r' {
        line.drop_last()
    } else {
        line
    }
}

/// The lines of `s`. A line ends at a line feed, or at a carriage return
/// followed by one; neither is part of the line. What follows the last line
/// feed is a line of its own unless it is empty, and is kept whole.
pub open spec fn lines_of(s: Seq<char>) -> Seq<Seq<char>>
    decreases s.len(),
{
    let n = first_line_len(s) as int;
    if s.len() == 0 {
        Seq::empty()
    } else if n >= s.len() {
        seq![s]
    } else {
        seq![without_cr(s.take(n))] + lines_of(s.skip(n + 1))
    }
}

/// The first line of `s` is as long as the stretch before its first line feed.
pub proof fn lemma_first_line_len(s: Seq<char>, n: int)
    requires
        0 <= n <= s.len(),
        forall|j: int| 0 <= j < n ==> s[j] != '\n',
        n == s.len() || s[n] == '\n',
    ensures
        first_line_len(s) == n,
    decreases s.len(),
{
    if n > 0 {
        lemma_first_line_len(s.drop_first(), n - 1);
    }
}

/// The character sequences that `lines` hold, in order.
pub open spec fn views(lines: Seq<Vec<char>>) -> Seq<Seq<char>> {
    lines.map_values(|l: Vec<char>| l@)
}

/// Splits `s` into its lines.
pub fn split_lines(s: &Vec<char>) -> (lines: Vec<Vec<char>>)
    ensures
        views(lines@) == lines_of(s@),
{
    let mut lines: Vec<Vec<char>> = Vec::new();
    let mut line: Vec<char> = Vec::new();
    let mut start: usize = 0;
    let mut i: usize = 0;
    assert(s@.skip(0) =~= s@);
    while i < s.len()
        invariant
            start <= i <= s.len(),
            line@ == s@.subrange(start as int, i as int),
            forall|j: int| start <= j < i ==> s[j] != '\n',
            lines_of(s@) == views(lines@) + lines_of(s@.skip(start as int)),
        decreases s.len() - i,
    {
        let c = s[i];
        if c == '\n' {
            proof {
                let rest = s@.skip(start as int);
                lemma_first_line_len(rest, i - start);
                assert(rest.take(i - start) =~= line@);
                assert(rest.skip(i - start + 1) =~= s@.skip(i + 1));
            }
            let n = line.len();
            if n > 0 && line[n - 1] == '\r' {
                line.pop();
            }
            lines.push(line);
            line = Vec::new();
            start = i + 1;
        } else {
            line.push(c);
        }
        i = i + 1;
    }
    if line.len() > 0 {
        proof {
            let rest = s@.skip(start as int);
            lemma_first_line_len(rest, rest.len() as int);
        }
        lines.push(line);
    }
    lines
}

/// `c` with the letters `A` to `Z` mapped to `a` to `z`.
pub open spec fn ascii_lower(c: char) -> char {
    if 'A' <= c && c <= 'Z' {
        ((c as int) + 32) as char
    } else {
        c
    }
}

/// The first character of `s`, and `c` where it has none.
pub open spec fn first_or(s: Seq<char>, c: char) -> char {
    if s.len() > 0 {
        s[0]
    } else {
        c
    }
}

/// The character by which `c` is looked up without regard to case: for an
/// ASCII character its lowercase letter, for any other the first character
/// of its Unicode lowercase mapping.
pub open spec fn lower_char(c: char) -> char {
    if c <= '\x7f' {
        ascii_lower(c)
    } else {
        first_or(unicode_lowercase(seq![c]), c)
    }
}

/// `s` in lowercase: letter by letter where it is all ASCII, else by the
/// Unicode case mappings.
pub open spec fn lowercase(s: Seq<char>) -> Seq<char> {
    if is_ascii_chars(s) {
        s.map_values(|c: char| ascii_lower(c))
    } else {
        unicode_lowercase(s)
    }
}

fn to_ascii_lower(c: char) -> (out: char)
    ensures
        out == ascii_lower(c),
{
    if 'A' <= c && c <= 'Z' {
        ((c as u8) + 32) as char
    } else {
        c
    }
}

/// The character by which `c` is looked up without regard to case.
pub fn to_lower_char(c: char) -> (out: char)
    ensures
        out == lower_char(c),
{
    if c <= '\x7f' {
        to_ascii_lower(c)
    } else {
        let mut alone = String::new();
        alone.push(c);
        let lowered = chars_of(str_to_lowercase(alone.as_str()).as_str());
        if lowered.len() > 0 {
            lowered[0]
        } else {
            c
        }
    }
}

/// The characters of `s` in lowercase.
pub fn to_lowercase(s: &str) -> (out: Vec<char>)
    ensures
        out@ == lowercase(s@),
{
    if s.is_ascii() {
        let chars = chars_of(s);
        let mut out: Vec<char> = Vec::new();
        let mut i: usize = 0;
        while i < chars.len()
            invariant
                i <= chars.len(),
                out@ == chars@.take(i as int).map_values(|c: char| ascii_lower(c)),
            decreases chars.len() - i,
        {
            out.push(to_ascii_lower(chars[i]));
            i = i + 1;
        }
        out
    } else {
        let lowered = str_to_lowercase(s);
        chars_of(lowered.as_str())
    }
}

/// Whether `s` begins with `prefix`.
pub fn starts_with(s: &Vec<char>, prefix: &Vec<char>) -> (yes: bool)
    ensures
        yes == prefix@.is_prefix_of(s@),
{
    if prefix.len() > s.len() {
        return false;
    }
    let mut i: usize = 0;
    while i < prefix.len()
        invariant
            i <= prefix.len() <= s.len(),
            forall|j: int| 0 <= j < i ==> s[j] == prefix[j],
        decreases prefix.len() - i,
    {
        if s[i] != prefix[i] {
            return false;
        }
        i = i + 1;
    }
    true
}

/// `s` without its first `n` characters; nothing where it has no more.
pub fn tail(s: &Vec<char>, n: usize) -> (out: Vec<char>)
    ensures
        n <= s.len() ==> out@ == s@.skip(n as int),
        n > s.len() ==> out@ == Seq::<char>::empty(),
{
    let mut out: Vec<char> = Vec::new();
    if n > s.len() {
        return out;
    }
    let mut i: usize = n;
    while i < s.len()
        invariant
            n <= i <= s.len(),
            out@ == s@.subrange(n as int, i as int),
        decreases s.len() - i,
    {
        out.push(s[i]);
        i = i + 1;
    }
    out
}

/// Whether the characters of `s` are those of `text`.
pub fn is_text(s: &Vec<char>, text: &str) -> (yes: bool)
    ensures
        yes == (s@ == text@),
{
    let other = chars_of(text);
    if s.len() != other.len() {
        return false;
    }
    let mut i: usize = 0;
    while i < s.len()
        invariant
            i <= s.len(),
            s.len() == other.len(),
            other@ == text@,
            forall|j: int| 0 <= j < i ==> s[j] == other[j],
        decreases s.len() - i,
    {
        if s[i] != other[i] {
            return false;
        }
        i = i + 1;
    }
    assert(s@ =~= other@);
    true
}

} // verus!
