//! Texts as sequences of characters: taking apart, searching, joining.

use vstd::prelude::*;
use vstd::string::StringExecFns;

verus! {

/// `String::push` appends one character to the end of the string.
pub assume_specification[ std::string::String::push ](s: &mut std::string::String, ch: char)
    ensures
        final(s)@ == old(s)@.push(ch),
;

/// `==` on string slices holds exactly when both hold the same characters.
pub assume_specification[ <str as PartialEq>::eq ](a: &str, b: &str) -> (same: bool)
    ensures
        same == (a@ == b@),
;

/// `char::from_u32` gives the character with the code `code`, and `None` exactly
/// when `code` is no Unicode scalar value.
pub assume_specification[ char::from_u32 ](code: u32) -> (out: Option<char>)
    ensures
        out.is_some() == (code <= 0xD7FF || 0xE000 <= code <= 0x10FFFF),
        out.is_some() ==> out.unwrap() == code as char,
;

/// The characters of `s`, in order.
pub fn chars_of(s: &str) -> (out: Vec<char>)
    ensures
        out@ == s@,
{
    let mut out: Vec<char> = Vec::new();
    for c in it: s.chars()
        invariant
            it.seq() == s@,
            out@ == s@.take(it.index() as int),
    {
        out.push(c);
    }
    out
}

/// The string made of the characters `chars[from..to]`.
pub fn string_of(chars: &Vec<char>, from: usize, to: usize) -> (out: String)
    requires
        from <= to <= chars.len(),
    ensures
        out@ == chars@.subrange(from as int, to as int),
{
    let mut out = String::new();
    let mut i: usize = from;
    while i < to
        invariant
            from <= i <= to <= chars.len(),
            out@ == chars@.subrange(from as int, i as int),
        decreases to - i,
    {
        out.push(chars[i]);
        i += 1;
    }
    out
}

/// The character of the decimal digit `d`.
pub open spec fn digit_char(d: nat) -> char
    recommends
        d < 10,
{
    (48 + d) as char
}

/// The decimal numeral of `n`, without leading zeros.
pub open spec fn decimal_text(n: nat) -> Seq<char>
    decreases n,
{
    if n < 10 {
        seq![digit_char(n)]
    } else {
        decimal_text(n / 10).push(digit_char(n % 10))
    }
}

/// Writes `n` in decimal.
pub fn decimal_string(n: usize) -> (out: String)
    ensures
        out@ == decimal_text(n as nat),
{
    decimal_string_u64(n as u64)
}

/// Writes `n` in decimal.
pub fn decimal_string_u64(n: u64) -> (out: String)
    ensures
        out@ == decimal_text(n as nat),
{
    let mut digits: Vec<char> = Vec::new();
    let mut rest: u64 = n;
    while rest >= 10
        invariant
            decimal_text(n as nat) == decimal_text(rest as nat) + digits@.reverse(),
        decreases rest,
    {
        let d: u8 = (rest % 10) as u8;
        let c: char = (48u8 + d) as char;
        proof {
            let tail = digits@.reverse();
            assert(digits@.push(c).reverse() == seq![c] + tail);
            assert(decimal_text(rest as nat) == decimal_text((rest / 10) as nat).push(c));
            assert(decimal_text((rest / 10) as nat).push(c) + tail == decimal_text(
                (rest / 10) as nat,
            ) + (seq![c] + tail));
        }
        digits.push(c);
        rest = rest / 10;
    }
    let last: char = (48u8 + rest as u8) as char;
    let mut out = String::new();
    out.push(last);
    let mut i: usize = digits.len();
    while i > 0
        invariant
            i <= digits.len(),
            out@ == seq![last] + digits@.reverse().take(digits.len() - i),
        decreases i,
    {
        i -= 1;
        proof {
            let r = digits@.reverse();
            let k = digits.len() - i - 1;
            assert(r.take(k + 1) == r.take(k).push(r[k]));
            assert(r[k] == digits@[i as int]);
            assert((seq![last] + r.take(k)).push(r[k]) == seq![last] + r.take(k).push(r[k]));
        }
        out.push(digits[i]);
    }
    proof {
        let r = digits@.reverse();
        assert(r.take(digits.len() as int) == r);
        assert(decimal_text(rest as nat) == seq![last]);
    }
    out
}

/// Whether `s` starts with `prefix`.
pub open spec fn starts_with(s: Seq<char>, prefix: Seq<char>) -> bool {
    prefix.len() <= s.len() && s.take(prefix.len() as int) == prefix
}

/// Whether `s` ends with `suffix`.
pub open spec fn ends_with(s: Seq<char>, suffix: Seq<char>) -> bool {
    suffix.len() <= s.len() && s.skip(s.len() - suffix.len()) == suffix
}

/// Whether `part` stands in `s` at `at`.
pub open spec fn occurs_at(s: Seq<char>, part: Seq<char>, at: int) -> bool {
    0 <= at && at + part.len() <= s.len() && s.subrange(at, at + part.len()) == part
}

/// Whether `part` stands somewhere in `s`.
pub open spec fn contains(s: Seq<char>, part: Seq<char>) -> bool {
    exists|at: int| occurs_at(s, part, at)
}

/// Whether `part` stands in `s` at `at`.
pub fn has_at(s: &Vec<char>, part: &Vec<char>, at: usize) -> (yes: bool)
    ensures
        yes == occurs_at(s@, part@, at as int),
{
    if at > s.len() || part.len() > s.len() - at {
        return false;
    }
    let mut i: usize = 0;
    while i < part.len()
        invariant
            i <= part.len(),
            at + part.len() <= s.len(),
            forall|k: int| 0 <= k < i ==> s@[at + k] == part@[k],
        decreases part.len() - i,
    {
        if s[at + i] != part[i] {
            assert(s@.subrange(at as int, at + part.len())[i as int] != part@[i as int]);
            return false;
        }
        i += 1;
    }
    assert(s@.subrange(at as int, at + part.len()) =~= part@);
    true
}

/// Whether `s` starts with `prefix`.
pub fn has_prefix(s: &Vec<char>, prefix: &Vec<char>) -> (yes: bool)
    ensures
        yes == starts_with(s@, prefix@),
{
    let yes = has_at(s, prefix, 0);
    proof {
        if prefix.len() <= s.len() {
            assert(s@.take(prefix.len() as int) == s@.subrange(0, 0 + prefix.len()));
        }
    }
    yes
}

/// Whether `s` ends with `suffix`.
pub fn has_suffix(s: &Vec<char>, suffix: &Vec<char>) -> (yes: bool)
    ensures
        yes == ends_with(s@, suffix@),
{
    if suffix.len() > s.len() {
        return false;
    }
    let at = s.len() - suffix.len();
    let yes = has_at(s, suffix, at);
    proof {
        assert(s@.skip(at as int) == s@.subrange(at as int, at + suffix.len()));
    }
    yes
}

/// Whether `part` stands somewhere in `s`.
pub fn has_part(s: &Vec<char>, part: &Vec<char>) -> (yes: bool)
    ensures
        yes == contains(s@, part@),
{
    let mut at: usize = 0;
    loop
        invariant
            at <= s.len(),
            forall|k: int| 0 <= k < at ==> !occurs_at(s@, part@, k),
        decreases s.len() - at,
    {
        if has_at(s, part, at) {
            return true;
        }
        if at == s.len() {
            return false;
        }
        at += 1;
    }
}

/// Whether two texts hold the same characters.
pub fn same_chars(a: &Vec<char>, b: &Vec<char>) -> (yes: bool)
    ensures
        yes == (a@ == b@),
{
    if a.len() != b.len() {
        return false;
    }
    let yes = has_at(a, b, 0);
    proof {
        assert(a@.subrange(0, 0 + b.len()) == a@);
    }
    yes
}

/// The path of `name`, a relative path, below the directory `base`, with `/`
/// between the two where `base` does not end in one.
pub open spec fn joined(base: Seq<char>, name: Seq<char>) -> Seq<char> {
    if base.len() == 0 {
        name
    } else if base.last() == '/' {
        base + name
    } else {
        base.push('/') + name
    }
}

/// The path of `name` below the directory `base`.
pub fn join_path(base: &str, name: &str) -> (out: String)
    ensures
        out@ == joined(base@, name@),
{
    let chars = chars_of(base);
    let mut out = String::from_str(base);
    if chars.len() == 0 {
        assert(base@ + name@ == name@);
    } else if chars[chars.len() - 1] != '/' {
        out.push('/');
    }
    out.append(name);
    out
}

/// Whether `ch` is white space, as `char::is_whitespace` tells.
pub open spec fn is_space(ch: char) -> bool {
    let code = ch as u32;
    (9 <= code <= 13) || code == 0x20 || code == 0x85 || code == 0xA0 || code == 0x1680 || (0x2000
        <= code <= 0x200A) || code == 0x2028 || code == 0x2029 || code == 0x202F || code == 0x205F
        || code == 0x3000
}

/// The first place from `from` on where no white space stands.
pub open spec fn space_end(s: Seq<char>, from: int) -> int
    decreases s.len() - from,
{
    if 0 <= from < s.len() && is_space(s[from]) {
        space_end(s, from + 1)
    } else {
        from
    }
}

/// The place down from `to`, and not below `floor`, before which no white
/// space stands.
pub open spec fn space_start(s: Seq<char>, floor: int, to: int) -> int
    decreases to,
{
    if 0 <= floor < to <= s.len() && is_space(s[to - 1]) {
        space_start(s, floor, to - 1)
    } else {
        to
    }
}

/// `s` without the white space at its two ends, as `str::trim` gives it.
pub open spec fn trimmed(s: Seq<char>) -> Seq<char> {
    let from = space_end(s, 0);
    s.subrange(from, space_start(s, from, s.len() as int))
}

/// The end of the line that starts at `from`: the next line feed, or the end.
pub open spec fn line_end(s: Seq<char>, from: int) -> int
    decreases s.len() - from,
{
    if 0 <= from < s.len() && s[from] != '\n' {
        line_end(s, from + 1)
    } else {
        from
    }
}

/// The line between `from` and the line's end `end`, without the carriage
/// return that stands before a line feed.
pub open spec fn line_between(s: Seq<char>, from: int, end: int) -> Seq<char> {
    if end < s.len() && from < end && s[end - 1] == '\r' {
        s.subrange(from, end - 1)
    } else {
        s.subrange(from, end)
    }
}

/// The lines of `s` from `from` on, as `str::lines` gives them: split at
/// line feeds, each without its line feed and the carriage return before it;
/// a line feed at the very end starts no further line.
pub open spec fn lines_from(s: Seq<char>, from: int) -> Seq<Seq<char>>
    decreases s.len() + 1 - from,
{
    if from < 0 || from >= s.len() {
        Seq::empty()
    } else {
        proof {
            line_end_bounds(s, from);
        }
        seq![line_between(s, from, line_end(s, from))] + lines_from(s, line_end(s, from) + 1)
    }
}

/// The lines of `s`.
pub open spec fn lines_of(s: Seq<char>) -> Seq<Seq<char>> {
    lines_from(s, 0)
}

/// A line ends at or behind its start, inside the text.
pub proof fn line_end_bounds(s: Seq<char>, from: int)
    requires
        0 <= from <= s.len(),
    ensures
        from <= line_end(s, from) <= s.len(),
    decreases s.len() - from,
{
    if from < s.len() && s[from] != '\n' {
        line_end_bounds(s, from + 1);
    }
}

/// Executable form of [`is_space`].
pub fn is_space_char(ch: char) -> (yes: bool)
    ensures
        yes == is_space(ch),
{
    let code = ch as u32;
    (9 <= code && code <= 13) || code == 0x20 || code == 0x85 || code == 0xA0 || code == 0x1680
        || (0x2000 <= code && code <= 0x200A) || code == 0x2028 || code == 0x2029 || code
        == 0x202F || code == 0x205F || code == 0x3000
}

/// The characters `s[from..to]`.
pub fn slice_of(s: &Vec<char>, from: usize, to: usize) -> (out: Vec<char>)
    requires
        from <= to <= s.len(),
    ensures
        out@ == s@.subrange(from as int, to as int),
{
    let mut out: Vec<char> = Vec::new();
    let mut i = from;
    while i < to
        invariant
            from <= i <= to <= s.len(),
            out@ == s@.subrange(from as int, i as int),
        decreases to - i,
    {
        out.push(s[i]);
        i += 1;
    }
    out
}

/// `s` without the white space at its two ends.
pub fn trim(s: &Vec<char>) -> (out: Vec<char>)
    ensures
        out@ == trimmed(s@),
{
    let mut from: usize = 0;
    while from < s.len() && is_space_char(s[from])
        invariant
            from <= s.len(),
            space_end(s@, from as int) == space_end(s@, 0),
        decreases s.len() - from,
    {
        from += 1;
    }
    let mut to: usize = s.len();
    while to > from && is_space_char(s[to - 1])
        invariant
            from <= to <= s.len(),
            space_start(s@, from as int, to as int) == space_start(
                s@,
                from as int,
                s.len() as int,
            ),
        decreases to,
    {
        to -= 1;
    }
    slice_of(s, from, to)
}

/// The texts that `rows` hold, in order.
pub open spec fn row_views(rows: Seq<Vec<char>>) -> Seq<Seq<char>> {
    rows.map_values(|row: Vec<char>| row@)
}

/// The lines of `s`.
pub fn lines(s: &Vec<char>) -> (out: Vec<Vec<char>>)
    ensures
        row_views(out@) == lines_of(s@),
{
    let mut out: Vec<Vec<char>> = Vec::new();
    let mut from: usize = 0;
    assert(row_views(out@) + lines_from(s@, 0) == lines_of(s@));
    while from < s.len()
        invariant
            from <= s.len(),
            row_views(out@) + lines_from(s@, from as int) == lines_of(s@),
        decreases s.len() - from,
    {
        let mut end = from;
        while end < s.len() && s[end] != '\n'
            invariant
                from <= end <= s.len(),
                line_end(s@, end as int) == line_end(s@, from as int),
            decreases s.len() - end,
        {
            end += 1;
        }
        let line = if end < s.len() && from < end && s[end - 1] == '\r' {
            slice_of(s, from, end - 1)
        } else {
            slice_of(s, from, end)
        };
        proof {
            let done = row_views(out@);
            let rest = lines_from(s@, end + 1);
            assert(row_views(out@.push(line)) == done.push(line@));
            assert(done.push(line@) + rest == done + (seq![line@] + rest));
        }
        out.push(line);
        if end == s.len() {
            assert(lines_from(s@, end + 1) == Seq::<Seq<char>>::empty());
            assert(row_views(out@) + Seq::<Seq<char>>::empty() == row_views(out@));
            return out;
        }
        from = end + 1;
    }
    assert(row_views(out@) + Seq::<Seq<char>>::empty() == row_views(out@));
    out
}

} // verus!
