//! Writes entries as statements, and proves that parsing reads them back.

use crate::error::ErrorView;
use crate::lexer::{
    char_at, digits_end, digits_end_bounds, hex_run_bounded, ident_end, is_blank, is_digit,
    is_ident_part, is_ident_start, next_token_spec, number_shape, scan_escape, scan_string,
    skip_trivia, word_token, Cursor, TokenView, Trivia,
};
use crate::number::{
    decimal_of, digit_of, digits_value, digits_value_push, number_value,
};
use crate::parser::{
    expect_value, parse_arguments, parse_from, parse_spec, parse_statement, parsed_entry,
    pref_type_of,
};
use crate::text::{chars_of, decimal_string_u64, decimal_text, digit_char, occurs_at};
use crate::types::{PrefEntry, PrefEntryView, PrefType, PrefValue, PrefValueView};
use vstd::prelude::*;
use vstd::string::StringExecFns;

verus! {

/// How a character of a string is written inside its literal: a quote and
/// a backslash behind a backslash, every other character as it is.
pub open spec fn escaped(ch: char) -> Seq<char> {
    if ch == '"' || ch == '\\' {
        seq!['\\', ch]
    } else {
        seq![ch]
    }
}

/// The characters of `text` from `from` on, as they are written inside a literal.
pub open spec fn escaped_from(text: Seq<char>, from: int) -> Seq<char>
    decreases text.len() - from,
{
    if from < 0 || from >= text.len() {
        Seq::empty()
    } else {
        escaped(text[from]) + escaped_from(text, from + 1)
    }
}

/// The string literal that stands for `text`.
pub open spec fn string_literal(text: Seq<char>) -> Seq<char> {
    seq!['"'] + escaped_from(text, 0) + seq!['"']
}

/// The name of the function that writes a preference of the type `pref_type`.
pub open spec fn function_name(pref_type: PrefType) -> Seq<char> {
    match pref_type {
        PrefType::User => "user_pref"@,
        PrefType::Default => "pref"@,
        PrefType::Locked => "lock_pref"@,
        PrefType::Sticky => "sticky_pref"@,
    }
}

/// The numeral of the integer `i`.
pub open spec fn integer_text(i: int) -> Seq<char> {
    if i < 0 {
        seq!['-'] + decimal_text((-i) as nat)
    } else {
        decimal_text(i as nat)
    }
}

/// How a value is written in a statement.
pub open spec fn value_text(value: PrefValueView) -> Seq<char> {
    match value {
        PrefValueView::Bool(b) => if b {
            "true"@
        } else {
            "false"@
        },
        PrefValueView::Integer(i) => integer_text(i),
        PrefValueView::Float(text) => text,
        PrefValueView::String(s) => string_literal(s),
        PrefValueView::Null => "null"@,
    }
}

/// What stands behind the function name in the statement of a key and a value.
pub open spec fn arguments_text(key: Seq<char>, value: PrefValueView) -> Seq<char> {
    seq!['('] + string_literal(key) + seq![',', ' '] + value_text(value) + seq![')', ';']
}

/// The statement that writes the entry `entry`: `name("key", value);`.
pub open spec fn statement_text(entry: PrefEntryView) -> Seq<char> {
    function_name(entry.pref_type) + arguments_text(entry.key, entry.value)
}

/// The preference file that writes the entries from `from` on, one
/// statement to a line.
pub open spec fn file_text(entries: Seq<PrefEntryView>, from: int) -> Seq<char>
    decreases entries.len() - from,
{
    if from < 0 || from >= entries.len() {
        Seq::empty()
    } else {
        statement_text(entries[from]) + seq!['\n'] + file_text(entries, from + 1)
    }
}

/// Writes the string literal that stands for `text`.
pub fn quote(text: &str) -> (out: String)
    ensures
        out@ == string_literal(text@),
{
    let chars = chars_of(text);
    let mut out = String::new();
    out.push('"');
    let mut k: usize = 0;
    let ghost mut done: Seq<char> = Seq::empty();
    assert(out@ == seq!['"'] + done);
    while k < chars.len()
        invariant
            k <= chars.len(),
            chars@ == text@,
            out@ == seq!['"'] + done,
            done + escaped_from(text@, k as int) == escaped_from(text@, 0),
        decreases chars.len() - k,
    {
        let ch = chars[k];
        proof {
            let rest = escaped_from(text@, k + 1);
            assert((done + escaped(ch)) + rest == done + (escaped(ch) + rest));
        }
        if ch == '"' || ch == '\\' {
            out.push('\\');
            out.push(ch);
            proof {
                assert((seq!['"'] + done).push('\\').push(ch) == seq!['"'] + (done + seq![
                    '\\',
                    ch,
                ]));
                done = done + seq!['\\', ch];
            }
        } else {
            out.push(ch);
            proof {
                assert((seq!['"'] + done).push(ch) == seq!['"'] + (done + seq![ch]));
                done = done + seq![ch];
            }
        }
        k += 1;
    }
    out.push('"');
    proof {
        assert(done + Seq::<char>::empty() == done);
        assert((seq!['"'] + done).push('"') == seq!['"'] + done + seq!['"']);
    }
    out
}

impl PrefType {
    /// The name of the function that writes a preference of this type.
    pub fn function_name(self) -> (name: &'static str)
        ensures
            name@ == function_name(self),
    {
        match self {
            PrefType::User => "user_pref",
            PrefType::Default => "pref",
            PrefType::Locked => "lock_pref",
            PrefType::Sticky => "sticky_pref",
        }
    }
}

impl PrefValue {
    /// Writes the value as it stands in a statement.
    pub fn render(&self) -> (out: String)
        ensures
            out@ == value_text(self@),
    {
        match self {
            PrefValue::Bool(b) => if *b {
                String::from_str("true")
            } else {
                String::from_str("false")
            },
            PrefValue::Integer(i) => if *i < 0 {
                let magnitude: u64 = if *i == i64::MIN {
                    0x8000_0000_0000_0000
                } else {
                    (-*i) as u64
                };
                let mut out = String::new();
                out.push('-');
                out.append(decimal_string_u64(magnitude).as_str());
                assert(out@ == seq!['-'] + decimal_text(magnitude as nat));
                out
            } else {
                decimal_string_u64(*i as u64)
            },
            PrefValue::Float(text) => text.clone(),
            PrefValue::String(s) => quote(s.as_str()),
            PrefValue::Null => String::from_str("null"),
        }
    }
}

impl PrefEntry {
    /// Writes the entry as a statement: `name("key", value);`.
    pub fn render(&self) -> (out: String)
        ensures
            out@ == statement_text(self@),
    {
        let mut out = String::from_str(self.pref_type.function_name());
        let ghost name = out@;
        let key = quote(self.key.as_str());
        let value = self.value.render();
        out.push('(');
        out.append(key.as_str());
        out.push(',');
        out.push(' ');
        out.append(value.as_str());
        out.push(')');
        out.push(';');
        proof {
            let arguments = arguments_text(self@.key, self@.value);
            assert(out@ =~= name + arguments);
        }
        out
    }
}

/// Writes a preference file: the statement of each entry, one to a line.
pub fn render_prefs(entries: &Vec<PrefEntry>) -> (out: String)
    ensures
        out@ == file_text(crate::types::entry_views(entries@), 0),
{
    let ghost views = crate::types::entry_views(entries@);
    let mut out = String::new();
    let mut k: usize = 0;
    let ghost mut done: Seq<char> = Seq::empty();
    assert(done + file_text(views, 0) == file_text(views, 0));
    while k < entries.len()
        invariant
            k <= entries.len(),
            views == crate::types::entry_views(entries@),
            out@ == done,
            done + file_text(views, k as int) == file_text(views, 0),
        decreases entries.len() - k,
    {
        let line = entries[k].render();
        proof {
            assert(views[k as int] == entries@[k as int]@);
            let rest = file_text(views, k + 1);
            assert((done + line@).push('\n') + rest == done + (line@ + seq!['\n'] + rest));
            done = (done + line@).push('\n');
        }
        out.append(line.as_str());
        out.push('\n');
        k += 1;
    }
    assert(done + Seq::<char>::empty() == done);
    out
}

/// Where two texts stand one behind the other, each of them stands.
proof fn occurs_split(s: Seq<char>, a: Seq<char>, b: Seq<char>, at: int)
    requires
        occurs_at(s, a + b, at),
    ensures
        occurs_at(s, a, at),
        occurs_at(s, b, at + a.len()),
{
    let whole = s.subrange(at, at + (a + b).len());
    assert(s.subrange(at, at + a.len()) =~= a) by {
        assert forall|k: int| 0 <= k < a.len() implies s.subrange(at, at + a.len())[k] == a[k] by {
            assert(whole[k] == (a + b)[k]);
        }
    }
    assert(s.subrange(at + a.len(), at + a.len() + b.len()) =~= b) by {
        assert forall|k: int| 0 <= k < b.len() implies s.subrange(
            at + a.len(),
            at + a.len() + b.len(),
        )[k] == b[k] by {
            assert(whole[a.len() + k] == (a + b)[a.len() + k]);
        }
    }
}

/// Where a text stands, each of its characters stands.
proof fn occurs_char(s: Seq<char>, part: Seq<char>, at: int, k: int)
    requires
        occurs_at(s, part, at),
        0 <= k < part.len(),
    ensures
        at + k < s.len(),
        s[at + k] == part[k],
{
    assert(s.subrange(at, at + part.len())[k] == part[k]);
}

/// Reading the inside of a string literal gives back the text it stands for.
proof fn scan_escaped(
    s: Seq<char>,
    c: Cursor,
    acc: Seq<char>,
    open_column: nat,
    text: Seq<char>,
    from: int,
)
    requires
        0 <= from <= text.len(),
        occurs_at(s, escaped_from(text, from) + seq!['"'], c.pos as int),
    ensures
        scan_string(s, c, acc, open_column).0 == Ok::<TokenView, ErrorView>(
            TokenView::String(acc + text.skip(from)),
        ),
        scan_string(s, c, acc, open_column).1.pos == c.pos + escaped_from(text, from).len() + 1,
    decreases text.len() - from,
{
    let body = escaped_from(text, from);
    occurs_split(s, body, seq!['"'], c.pos as int);
    if from == text.len() {
        occurs_char(s, seq!['"'], c.pos as int, 0);
        assert(acc + text.skip(from) == acc);
    } else {
        let ch = text[from];
        let rest = escaped_from(text, from + 1);
        occurs_split(s, escaped(ch), rest, c.pos as int);
        assert(escaped(ch) + rest + seq!['"'] == escaped(ch) + (rest + seq!['"']));
        occurs_split(s, escaped(ch), rest + seq!['"'], c.pos as int);
        assert(acc.push(ch) + text.skip(from + 1) == acc + text.skip(from));
        if ch == '"' || ch == '\\' {
            occurs_char(s, escaped(ch), c.pos as int, 0);
            occurs_char(s, escaped(ch), c.pos as int, 1);
            hex_run_bounded(s, c.pos + 2, 2);
            hex_run_bounded(s, c.pos + 2, 4);
            assert(scan_escape(s, c.ahead(1)) == (Ok::<char, ErrorView>(ch), c.ahead(1).ahead(1)));
            scan_escaped(s, c.ahead(1).ahead(1), acc.push(ch), open_column, text, from + 1);
        } else {
            occurs_char(s, escaped(ch), c.pos as int, 0);
            scan_escaped(s, c.step(ch), acc.push(ch), open_column, text, from + 1);
        }
    }
}

/// Reading a string literal gives back the text it stands for.
proof fn reads_string(s: Seq<char>, c: Cursor, text: Seq<char>)
    requires
        occurs_at(s, string_literal(text), c.pos as int),
    ensures
        next_token_spec(s, c).0 == Ok::<TokenView, ErrorView>(TokenView::String(text)),
        next_token_spec(s, c).1.pos == c.pos + string_literal(text).len(),
{
    let body = escaped_from(text, 0);
    assert(string_literal(text) == seq!['"'] + (body + seq!['"']));
    occurs_split(s, seq!['"'], body + seq!['"'], c.pos as int);
    occurs_char(s, seq!['"'], c.pos as int, 0);
    assert(skip_trivia(s, c, Trivia::Blank) == c);
    scan_escaped(s, c.ahead(1), Seq::empty(), c.column, text, 0);
    assert(Seq::<char>::empty() + text.skip(0) == text);
}

/// Reading a punctuation mark.
proof fn reads_mark(s: Seq<char>, c: Cursor, ch: char)
    requires
        c.pos < s.len(),
        s[c.pos as int] == ch,
        ch == '(' || ch == ')' || ch == ',' || ch == ';',
    ensures
        next_token_spec(s, c) == (
            Ok::<TokenView, ErrorView>(
                if ch == '(' {
                    TokenView::LeftParen
                } else if ch == ')' {
                    TokenView::RightParen
                } else if ch == ',' {
                    TokenView::Comma
                } else {
                    TokenView::Semicolon
                },
            ),
            c.ahead(1),
        ),
{
    assert(skip_trivia(s, c, Trivia::Blank) == c);
}

/// A run of identifier characters that something else follows ends there.
proof fn ident_end_of_run(s: Seq<char>, from: nat, to: nat)
    requires
        from <= to <= s.len(),
        forall|k: int| from <= k < to ==> is_ident_part(#[trigger] s[k]),
        to < s.len() ==> !is_ident_part(s[to as int]),
    ensures
        ident_end(s, from) == to,
    decreases to - from,
{
    if from < to {
        ident_end_of_run(s, from + 1, to);
    }
}

/// Whether `name` is spelled as an identifier.
pub open spec fn is_word(name: Seq<char>) -> bool {
    &&& name.len() > 0
    &&& is_ident_start(name[0])
    &&& forall|k: int| 0 <= k < name.len() ==> is_ident_part(#[trigger] name[k])
}

/// Reading a word that no identifier character follows.
proof fn reads_word(s: Seq<char>, c: Cursor, name: Seq<char>)
    requires
        is_word(name),
        occurs_at(s, name, c.pos as int),
        c.pos + name.len() < s.len() ==> !is_ident_part(s[c.pos + name.len() as int]),
    ensures
        next_token_spec(s, c) == (Ok::<TokenView, ErrorView>(word_token(name)), c.ahead(name.len())),
{
    occurs_char(s, name, c.pos as int, 0);
    assert(skip_trivia(s, c, Trivia::Blank) == c);
    assert forall|k: int| c.pos <= k < c.pos + name.len() implies is_ident_part(#[trigger] s[k]) by {
        occurs_char(s, name, c.pos as int, k - c.pos);
        assert(is_ident_part(name[k - c.pos]));
    }
    ident_end_of_run(s, c.pos, c.pos + name.len());
}

/// Whether `text` is a number literal as the lexer hands it on: it starts
/// with `-` or a digit, is a number from its first character to its last,
/// with a digit before the exponent and one in it, and writes the exponent
/// mark in lower case.
pub open spec fn is_number_literal(text: Seq<char>) -> bool {
    let shape = number_shape(text, 0);
    &&& text.len() > 0
    &&& text[0] == '-' || is_digit(text[0])
    &&& shape.end == text.len()
    &&& shape.has_mantissa_digit()
    &&& !(shape.has_exp && shape.end == shape.exp_digits)
    &&& shape.text(text, 0) == text
}

/// Whether `value` is a value that a statement can give: an integer that
/// fits in 64 signed bits, or a float whose text is a number literal that
/// stands for no such integer.
pub open spec fn is_statement_value(value: PrefValueView) -> bool {
    match value {
        PrefValueView::Integer(i) => i64::MIN <= i <= i64::MAX,
        PrefValueView::Float(text) => is_number_literal(text) && number_value(text)
            == PrefValueView::Float(text),
        _ => true,
    }
}

/// Where a text stands, each part of it stands.
proof fn occurs_part(s: Seq<char>, text: Seq<char>, at: int, from: int, to: int)
    requires
        occurs_at(s, text, at),
        0 <= from <= to <= text.len(),
    ensures
        s.subrange(at + from, at + to) == text.subrange(from, to),
{
    assert forall|k: int| 0 <= k < to - from implies s.subrange(at + from, at + to)[k]
        == text.subrange(from, to)[k] by {
        occurs_char(s, text, at, from + k);
    }
    assert(s.subrange(at + from, at + to) =~= text.subrange(from, to));
}

/// A run of digits inside a text that stands in `s`, with no digit behind
/// the text, ends in `s` where it ends in the text.
proof fn digits_end_inside(s: Seq<char>, text: Seq<char>, at: int, i: int)
    requires
        occurs_at(s, text, at),
        0 <= i <= text.len(),
        at + text.len() < s.len() ==> !is_digit(s[at + text.len()]),
    ensures
        digits_end(s, (at + i) as nat) == at + digits_end(text, i as nat),
    decreases text.len() - i,
{
    if i < text.len() {
        occurs_char(s, text, at, i);
        if is_digit(text[i]) {
            digits_end_inside(s, text, at, i + 1);
        }
    }
}

/// Reading a number literal that a closing parenthesis follows.
#[verifier::rlimit(50)]
proof fn reads_number(s: Seq<char>, c: Cursor, text: Seq<char>)
    requires
        is_number_literal(text),
        occurs_at(s, text, c.pos as int),
        c.pos + text.len() < s.len(),
        s[c.pos + text.len() as int] == ')',
    ensures
        next_token_spec(s, c) == (
            Ok::<TokenView, ErrorView>(TokenView::Number(text)),
            c.ahead(text.len()),
        ),
{
    let at = c.pos as int;
    let here = number_shape(s, c.pos);
    let there = number_shape(text, 0);
    occurs_char(s, text, at, 0);
    assert(skip_trivia(s, c, Trivia::Blank) == c);
    assert forall|i: int, ch: char|
        0 <= i <= text.len() && ch != ')' implies #[trigger] char_at(s, (at + i) as nat, ch)
        == char_at(text, i as nat, ch) by {
        if i < text.len() {
            occurs_char(s, text, at, i);
        }
    }
    digits_end_bounds(text, there.int_start);
    digits_end_inside(s, text, at, there.int_start as int);
    assert(char_at(s, (at + 0) as nat, '-') == char_at(text, 0, '-'));
    assert(here.int_start == at + there.int_start);
    assert(here.int_end == at + there.int_end);
    assert(char_at(s, (at + there.int_end) as nat, '.') == char_at(text, there.int_end, '.'));
    if char_at(text, there.int_end, '.') {
        digits_end_bounds(text, there.int_end + 1);
        digits_end_inside(s, text, at, there.int_end + 1 as int);
    }
    assert(here.frac_end == at + there.frac_end);
    assert(char_at(s, (at + there.frac_end) as nat, 'e') == char_at(text, there.frac_end, 'e'));
    assert(char_at(s, (at + there.frac_end) as nat, 'E') == char_at(text, there.frac_end, 'E'));
    assert(here.has_exp == there.has_exp);
    assert(here.exp_start == at + there.exp_start);
    if there.has_exp {
        assert(char_at(s, (at + there.exp_start) as nat, '+') == char_at(
            text,
            there.exp_start,
            '+',
        ));
        assert(char_at(s, (at + there.exp_start) as nat, '-') == char_at(
            text,
            there.exp_start,
            '-',
        ));
        assert(here.exp_digits == at + there.exp_digits);
        digits_end_bounds(text, there.exp_digits);
        digits_end_inside(s, text, at, there.exp_digits as int);
    }
    assert(here.exp_digits == at + there.exp_digits);
    assert(here.end == at + there.end);
    occurs_part(s, text, at, 0, there.frac_end as int);
    if there.has_exp {
        occurs_part(s, text, at, there.exp_start as int, there.end as int);
    }
    assert(here.text(s, c.pos) == there.text(text, 0));
}

/// A decimal numeral holds digits only, and writes its number.
pub proof fn decimal_text_reads_back(n: nat)
    ensures
        decimal_text(n).len() > 0,
        forall|k: int| 0 <= k < decimal_text(n).len() ==> is_digit(#[trigger] decimal_text(n)[k]),
        digits_value(decimal_text(n)) == n,
    decreases n,
{
    if n < 10 {
        assert(decimal_text(n).drop_last() == Seq::<char>::empty());
        assert(digits_value(decimal_text(n)) == 10 * digits_value(Seq::<char>::empty()) + digit_of(
            digit_char(n),
        ));
    } else {
        decimal_text_reads_back(n / 10);
        digits_value_push(decimal_text(n / 10), digit_char(n % 10));
    }
}

/// A run of digits that something else follows ends there.
proof fn digits_end_of_run(s: Seq<char>, from: nat, to: nat)
    requires
        from <= to <= s.len(),
        forall|k: int| from <= k < to ==> is_digit(#[trigger] s[k]),
        to < s.len() ==> !is_digit(s[to as int]),
    ensures
        digits_end(s, from) == to,
    decreases to - from,
{
    if from < to {
        digits_end_of_run(s, from + 1, to);
    }
}

/// The numeral of an integer that fits in 64 signed bits is a number
/// literal, and its value is that integer.
pub proof fn integer_text_reads_back(i: int)
    requires
        i64::MIN <= i <= i64::MAX,
    ensures
        is_number_literal(integer_text(i)),
        number_value(integer_text(i)) == PrefValueView::Integer(i),
{
    let magnitude = (if i < 0 {
        -i
    } else {
        i
    }) as nat;
    let numeral = decimal_text(magnitude);
    let text = integer_text(i);
    let start: nat = if i < 0 {
        1
    } else {
        0
    };
    decimal_text_reads_back(magnitude);
    assert forall|k: int| start <= k < text.len() implies is_digit(#[trigger] text[k]) by {
        assert(text[k] == numeral[k - start]);
    }
    digits_end_of_run(text, start, text.len());
    let shape = number_shape(text, 0);
    assert(text[0] == '-' <==> i < 0) by {
        if i >= 0 {
            assert(is_digit(text[0]));
        }
    }
    assert(shape.int_start == start);
    assert(shape.int_end == text.len());
    assert(shape.frac_end == text.len());
    assert(!shape.has_exp);
    assert(shape.end == text.len());
    assert(text.subrange(0, text.len() as int) == text);
    assert(shape.text(text, 0) == text);
    let d = decimal_of(text);
    assert(text.subrange(start as int, text.len() as int) == numeral);
    assert(numeral + Seq::<char>::empty() == numeral);
    assert(d.digits == numeral);
    assert(d.point == numeral.len());
    assert(d.whole_digits() == numeral) by {
        assert(numeral.take(numeral.len() as int) == numeral);
    }
    assert(d.fraction_digits() == Seq::<char>::empty());
    assert(d.is_whole());
    assert(d.negative == (i < 0));
    assert(d.whole_value() == i);
}

/// Where one text stands and another right behind it, the two stand as one.
proof fn occurs_join(s: Seq<char>, a: Seq<char>, b: Seq<char>, at: int)
    requires
        occurs_at(s, a, at),
        occurs_at(s, b, at + a.len()),
    ensures
        occurs_at(s, a + b, at),
{
    assert forall|k: int| 0 <= k < (a + b).len() implies s.subrange(at, at + (a + b).len())[k] == (a
        + b)[k] by {
        if k < a.len() {
            occurs_char(s, a, at, k);
        } else {
            occurs_char(s, b, at + a.len(), k - a.len());
        }
    }
    assert(s.subrange(at, at + (a + b).len()) =~= a + b);
}

/// A blank before a token is passed over.
proof fn skips_blank(s: Seq<char>, c: Cursor)
    requires
        c.pos < s.len(),
        is_blank(s[c.pos as int]),
    ensures
        next_token_spec(s, c) == next_token_spec(s, c.step(s[c.pos as int])),
{
}

/// The reserved words and the function names are spelled as identifiers,
/// the function names are no reserved words, and each function name
/// stands for its preference type.
proof fn words_are_words()
    ensures
        is_word("true"@) && word_token("true"@) == TokenView::Boolean(true),
        is_word("false"@) && word_token("false"@) == TokenView::Boolean(false),
        is_word("null"@) && word_token("null"@) == TokenView::Null,
        forall|pref_type: PrefType|
            is_word(#[trigger] function_name(pref_type)) && word_token(function_name(pref_type))
                == TokenView::Identifier(function_name(pref_type)) && pref_type_of(
                function_name(pref_type),
            ) == Some(pref_type),
{
    reveal_strlit("true");
    reveal_strlit("false");
    reveal_strlit("null");
    reveal_strlit("user_pref");
    reveal_strlit("pref");
    reveal_strlit("lock_pref");
    reveal_strlit("sticky_pref");
    assert("true"@[0] == 't' && "false"@[0] == 'f' && "null"@[0] == 'n');
    assert("user_pref"@[0] == 'u' && "pref"@[0] == 'p' && "lock_pref"@[0] == 'l'
        && "sticky_pref"@[0] == 's');
    assert forall|pref_type: PrefType|
        is_word(#[trigger] function_name(pref_type)) && word_token(function_name(pref_type))
            == TokenView::Identifier(function_name(pref_type)) && pref_type_of(
            function_name(pref_type),
        ) == Some(pref_type) by {
        let name = function_name(pref_type);
        assert(name != "true"@ && name != "false"@ && name != "null"@) by {
            assert(name[0] != 't' && name[0] != 'f' && name[0] != 'n');
        }
        match pref_type {
            PrefType::User => {},
            PrefType::Default => {
                assert(name[0] != "user_pref"@[0]);
            },
            PrefType::Locked => {
                assert(name[0] != "user_pref"@[0] && name[0] != "pref"@[0]);
            },
            PrefType::Sticky => {
                assert(name[0] != "user_pref"@[0] && name[0] != "pref"@[0] && name[0]
                    != "lock_pref"@[0]);
            },
        }
    }
}

/// Reading a value that a closing parenthesis follows gives the value back.
proof fn reads_value(s: Seq<char>, c: Cursor, value: PrefValueView)
    requires
        is_statement_value(value),
        occurs_at(s, value_text(value) + seq![')'], c.pos as int),
    ensures
        expect_value(s, c) is Ok,
        expect_value(s, c)->Ok_0.0 == value,
        expect_value(s, c)->Ok_0.1.pos == c.pos + value_text(value).len(),
{
    let text = value_text(value);
    occurs_split(s, text, seq![')'], c.pos as int);
    occurs_char(s, seq![')'], c.pos + text.len() as int, 0);
    words_are_words();
    match value {
        PrefValueView::String(t) => {
            reads_string(s, c, t);
        },
        PrefValueView::Bool(b) => {
            reads_word(s, c, text);
        },
        PrefValueView::Null => {
            reads_word(s, c, text);
        },
        PrefValueView::Integer(i) => {
            integer_text_reads_back(i);
            reads_number(s, c, text);
        },
        PrefValueView::Float(t) => {
            reads_number(s, c, text);
        },
    }
}

/// Reading the arguments of a written statement gives its entry back.
#[verifier::rlimit(50)]
proof fn reads_arguments(
    s: Seq<char>,
    c: Cursor,
    key: Seq<char>,
    value: PrefValueView,
    pref_type: PrefType,
)
    requires
        is_statement_value(value),
        occurs_at(s, arguments_text(key, value), c.pos as int),
    ensures
        parse_arguments(s, c, pref_type) is Ok,
        parse_arguments(s, c, pref_type)->Ok_0.0 == parsed_entry(key, value, pref_type),
        parse_arguments(s, c, pref_type)->Ok_0.1.pos == c.pos + arguments_text(key, value).len(),
{
    let open = seq!['('];
    let name = string_literal(key);
    let comma = seq![',', ' '];
    let text = value_text(value);
    let close = seq![')', ';'];
    let at = c.pos as int;
    occurs_split(s, open + name + comma + text, close, at);
    occurs_split(s, open + name + comma, text, at);
    occurs_split(s, open + name, comma, at);
    occurs_split(s, open, name, at);
    occurs_char(s, open, at, 0);
    reads_mark(s, c, '(');
    let c1 = c.ahead(1);
    reads_string(s, c1, key);
    let c2 = next_token_spec(s, c1).1;
    occurs_char(s, comma, at + 1 + name.len(), 0);
    occurs_char(s, comma, at + 1 + name.len(), 1);
    reads_mark(s, c2, ',');
    let c3 = c2.ahead(1);
    skips_blank(s, c3);
    let c4 = c3.step(' ');
    assert(close == seq![')'] + seq![';']);
    occurs_split(s, seq![')'], seq![';'], at + 1 + name.len() + 2 + text.len());
    occurs_join(s, text, seq![')'], c4.pos as int);
    reads_value(s, c4, value);
    let c5 = expect_value(s, c4)->Ok_0.1;
    assert(expect_value(s, c3) == expect_value(s, c4));
    occurs_char(s, seq![')'], c5.pos as int, 0);
    reads_mark(s, c5, ')');
    let c6 = c5.ahead(1);
    occurs_char(s, seq![';'], c6.pos as int, 0);
    reads_mark(s, c6, ';');
}

/// Reading a written statement gives its entry back.
proof fn reads_statement(s: Seq<char>, c: Cursor, entry: PrefEntryView)
    requires
        is_statement_value(entry.value),
        occurs_at(s, statement_text(entry), c.pos as int),
    ensures
        next_token_spec(s, c).0 is Ok,
        next_token_spec(s, c).0 != Ok::<TokenView, ErrorView>(TokenView::Eof),
        parse_statement(s, next_token_spec(s, c).0->Ok_0, next_token_spec(s, c).1) is Ok,
        parse_statement(s, next_token_spec(s, c).0->Ok_0, next_token_spec(s, c).1)->Ok_0.0
            == parsed_entry(entry.key, entry.value, entry.pref_type),
        parse_statement(s, next_token_spec(s, c).0->Ok_0, next_token_spec(s, c).1)->Ok_0.1.pos
            == c.pos + statement_text(entry).len(),
{
    let name = function_name(entry.pref_type);
    let arguments = arguments_text(entry.key, entry.value);
    words_are_words();
    occurs_split(s, name, arguments, c.pos as int);
    occurs_char(s, arguments, c.pos + name.len() as int, 0);
    assert(arguments[0] == '(');
    reads_word(s, c, name);
    reads_arguments(s, c.ahead(name.len()), entry.key, entry.value, entry.pref_type);
}

/// The entries that parsing gives for the entries from `from` on: each with
/// its key, value and type, and nothing said of where it came from.
pub open spec fn parsed_entries(entries: Seq<PrefEntryView>, from: int) -> Seq<PrefEntryView>
    decreases entries.len() - from,
{
    if from < 0 || from >= entries.len() {
        Seq::empty()
    } else {
        seq![parsed_entry(entries[from].key, entries[from].value, entries[from].pref_type)]
            + parsed_entries(entries, from + 1)
    }
}

/// Parsing the end of a written file gives the entries that were written there.
#[verifier::rlimit(50)]
proof fn parse_reads_back_from(s: Seq<char>, c: Cursor, entries: Seq<PrefEntryView>, from: int)
    requires
        0 <= from <= entries.len(),
        forall|k: int| 0 <= k < entries.len() ==> is_statement_value(#[trigger] entries[k].value),
        occurs_at(s, file_text(entries, from), c.pos as int),
        c.pos + file_text(entries, from).len() == s.len(),
    ensures
        parse_from(s, c) == Ok::<Seq<PrefEntryView>, ErrorView>(parsed_entries(entries, from)),
    decreases entries.len() - from,
{
    if from < entries.len() {
        let entry = entries[from];
        let statement = statement_text(entry);
        let rest = file_text(entries, from + 1);
        assert(file_text(entries, from) == statement + (seq!['\n'] + rest));
        occurs_split(s, statement, seq!['\n'] + rest, c.pos as int);
        occurs_split(s, seq!['\n'], rest, c.pos + statement.len() as int);
        occurs_char(s, seq!['\n'], c.pos + statement.len() as int, 0);
        reads_statement(s, c, entry);
        let first = next_token_spec(s, c).0->Ok_0;
        let c1 = next_token_spec(s, c).1;
        let c2 = parse_statement(s, first, c1)->Ok_0.1;
        skips_blank(s, c2);
        let c3 = c2.step('\n');
        parse_reads_back_from(s, c3, entries, from + 1);
        assert(parse_from(s, c2) == parse_from(s, c3));
    }
}

/// Round trip: parsing a file that writes valid statements, one to a line,
/// gives back the key, the value and the type of each statement, in the
/// order of the statements.
pub proof fn parse_reads_back_what_was_written(entries: Seq<PrefEntryView>)
    requires
        forall|k: int| 0 <= k < entries.len() ==> is_statement_value(#[trigger] entries[k].value),
        file_text(entries, 0).len() < usize::MAX,
    ensures
        parse_spec(file_text(entries, 0)) == Ok::<Seq<PrefEntryView>, ErrorView>(
            parsed_entries(entries, 0),
        ),
{
    let s = file_text(entries, 0);
    assert(s.subrange(0, s.len() as int) == s);
    parse_reads_back_from(s, Cursor::start(), entries, 0);
}

} // verus!
