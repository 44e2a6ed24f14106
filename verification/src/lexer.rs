//! Splits the text of a preference file into tokens.
//!
//! [`next_token_spec`] says which token stands at a place of a text, and
//! where the lexer then stands; [`Lexer::next_token`] computes it.

use crate::error::{Error, ErrorView};
use crate::text::{chars_of, string_of};
use vstd::prelude::*;
use vstd::string::StringExecFns;

verus! {

/// A token of a preference file.
#[derive(Debug, PartialEq, Eq)]
pub enum Token {
    /// A name such as `user_pref`.
    Identifier(String),
    /// A string literal, its escapes decoded.
    String(String),
    /// A number, as the text of its literal with the exponent mark in lower case.
    Number(String),
    /// `true` or `false`.
    Boolean(bool),
    /// `null`.
    Null,
    LeftParen,
    RightParen,
    Comma,
    Semicolon,
    /// The end of the input.
    Eof,
}

/// Mathematical model of a [`Token`].
pub enum TokenView {
    Identifier(Seq<char>),
    String(Seq<char>),
    Number(Seq<char>),
    Boolean(bool),
    Null,
    LeftParen,
    RightParen,
    Comma,
    Semicolon,
    Eof,
}

impl View for Token {
    type V = TokenView;

    open spec fn view(&self) -> TokenView {
        match self {
            Token::Identifier(t) => TokenView::Identifier(t@),
            Token::String(t) => TokenView::String(t@),
            Token::Number(t) => TokenView::Number(t@),
            Token::Boolean(b) => TokenView::Boolean(*b),
            Token::Null => TokenView::Null,
            Token::LeftParen => TokenView::LeftParen,
            Token::RightParen => TokenView::RightParen,
            Token::Comma => TokenView::Comma,
            Token::Semicolon => TokenView::Semicolon,
            Token::Eof => TokenView::Eof,
        }
    }
}

impl Clone for Token {
    fn clone(&self) -> (out: Self)
        ensures
            out@ == self@,
    {
        match self {
            Token::Identifier(t) => Token::Identifier(t.clone()),
            Token::String(t) => Token::String(t.clone()),
            Token::Number(t) => Token::Number(t.clone()),
            Token::Boolean(b) => Token::Boolean(*b),
            Token::Null => Token::Null,
            Token::LeftParen => Token::LeftParen,
            Token::RightParen => Token::RightParen,
            Token::Comma => Token::Comma,
            Token::Semicolon => Token::Semicolon,
            Token::Eof => Token::Eof,
        }
    }
}

/// A place in the input: how many characters lie before it, and the line and
/// column (both counted from 1) that an error found there is reported at.
pub struct Cursor {
    pub pos: nat,
    pub line: nat,
    pub column: nat,
}

impl Cursor {
    /// The cursor after one more character, `ch`, has been consumed.
    pub open spec fn step(self, ch: char) -> Cursor {
        if ch == '\n' {
            Cursor { pos: self.pos + 1, line: self.line + 1, column: 1 }
        } else {
            Cursor { pos: self.pos + 1, line: self.line, column: self.column + 1 }
        }
    }

    /// The cursor after `n` more characters of the same line.
    pub open spec fn ahead(self, n: nat) -> Cursor {
        Cursor { pos: self.pos + n, line: self.line, column: self.column + n }
    }

    /// The start of an input.
    pub open spec fn start() -> Cursor {
        Cursor { pos: 0, line: 1, column: 1 }
    }
}

/// Whether `ch` is skipped between tokens: a space, a tab, a carriage
/// return or a line feed.
pub open spec fn is_blank(ch: char) -> bool {
    ch == ' ' || ch == '\t' || ch == '\r' || ch == '\n'
}

/// Whether `ch` is a decimal digit.
pub open spec fn is_digit(ch: char) -> bool {
    '0' <= ch <= '9'
}

/// Whether an identifier can start with `ch`: a letter of the alphabet or `_`.
pub open spec fn is_ident_start(ch: char) -> bool {
    ('a' <= ch <= 'z') || ('A' <= ch <= 'Z') || ch == '_'
}

/// Whether an identifier can go on with `ch`: a letter, `_` or a digit.
pub open spec fn is_ident_part(ch: char) -> bool {
    is_ident_start(ch) || is_digit(ch)
}

/// Whether `ch` is a hexadecimal digit, in either case.
pub open spec fn is_hex_digit(ch: char) -> bool {
    is_digit(ch) || ('a' <= ch <= 'f') || ('A' <= ch <= 'F')
}

/// The value of a hexadecimal digit.
pub open spec fn hex_value(ch: char) -> nat
    recommends
        is_hex_digit(ch),
{
    if is_digit(ch) {
        (ch as nat - 48) as nat
    } else if 'a' <= ch <= 'f' {
        (ch as nat - 87) as nat
    } else {
        (ch as nat - 55) as nat
    }
}

/// Whether the two characters at `pos` are `a` then `b`.
pub open spec fn pair_at(s: Seq<char>, pos: nat, a: char, b: char) -> bool {
    pos + 1 < s.len() && s[pos as int] == a && s[pos as int + 1] == b
}

/// What is being skipped between tokens.
pub enum Trivia {
    /// Blanks, until a comment or a token starts.
    Blank,
    /// A `//` comment, up to the end of the line.
    Line,
    /// A `/* */` comment whose body starts at the line and column given.
    Block { line: nat, column: nat },
}

/// The cursor at which the next token starts, or the input ends.
///
/// A block comment that never closes ends the input without an error, and the
/// cursor then reports the line and column where the comment's body started.
pub open spec fn skip_trivia(s: Seq<char>, c: Cursor, mode: Trivia) -> Cursor
    decreases s.len() - c.pos, (if mode is Line { 1int } else { 0int }),
{
    if c.pos >= s.len() {
        match mode {
            Trivia::Block { line, column } => Cursor { pos: c.pos, line, column },
            _ => c,
        }
    } else {
        let ch = s[c.pos as int];
        match mode {
            Trivia::Blank => if is_blank(ch) {
                skip_trivia(s, c.step(ch), Trivia::Blank)
            } else if pair_at(s, c.pos, '/', '/') {
                skip_trivia(s, c.ahead(2), Trivia::Line)
            } else if pair_at(s, c.pos, '/', '*') {
                skip_trivia(
                    s,
                    c.ahead(2),
                    Trivia::Block { line: c.line, column: c.column + 2 },
                )
            } else {
                c
            },
            Trivia::Line => if ch == '\n' {
                skip_trivia(s, c, Trivia::Blank)
            } else {
                skip_trivia(s, c.ahead(1), Trivia::Line)
            },
            Trivia::Block { line, column } => if pair_at(s, c.pos, '*', '/') {
                skip_trivia(s, c.ahead(2), Trivia::Blank)
            } else {
                skip_trivia(s, c.step(ch), mode)
            },
        }
    }
}

/// The end of the longest run of digits that starts at `pos`.
pub open spec fn digits_end(s: Seq<char>, pos: nat) -> nat
    decreases s.len() - pos,
{
    if pos < s.len() && is_digit(s[pos as int]) {
        digits_end(s, pos + 1)
    } else {
        pos
    }
}

/// The end of the longest run of identifier characters that starts at `pos`.
pub open spec fn ident_end(s: Seq<char>, pos: nat) -> nat
    decreases s.len() - pos,
{
    if pos < s.len() && is_ident_part(s[pos as int]) {
        ident_end(s, pos + 1)
    } else {
        pos
    }
}

/// How many of the `limit` characters from `pos` on are hexadecimal digits,
/// counted up to the first that is not.
pub open spec fn hex_run(s: Seq<char>, pos: nat, limit: nat) -> nat
    decreases limit,
{
    if limit > 0 && pos < s.len() && is_hex_digit(s[pos as int]) {
        1 + hex_run(s, pos + 1, (limit - 1) as nat)
    } else {
        0
    }
}

/// A run of hexadecimal digits is no longer than its limit and ends inside the input.
pub proof fn hex_run_bounded(s: Seq<char>, pos: nat, limit: nat)
    ensures
        hex_run(s, pos, limit) <= limit,
        pos <= s.len() ==> pos + hex_run(s, pos, limit) <= s.len(),
        forall|i: int| pos <= i < pos + hex_run(s, pos, limit) ==> is_hex_digit(#[trigger] s[i]),
    decreases limit,
{
    if limit > 0 && pos < s.len() && is_hex_digit(s[pos as int]) {
        hex_run_bounded(s, pos + 1, (limit - 1) as nat);
    }
}

/// The number that the hexadecimal digits `digits` write.
pub open spec fn hex_number(digits: Seq<char>) -> nat
    decreases digits.len(),
{
    if digits.len() == 0 {
        0
    } else {
        16 * hex_number(digits.drop_last()) + hex_value(digits.last())
    }
}

/// The character with code `code`, or U+FFFD where `code` is a surrogate.
pub open spec fn scalar_or_replacement(code: nat) -> char {
    if 0xD800 <= code <= 0xDFFF {
        '\u{FFFD}'
    } else {
        code as char
    }
}

/// A lexer error at the line and column of `at`.
pub open spec fn lex_error(at: Cursor, message: Seq<char>) -> ErrorView {
    ErrorView::Lexer { line: at.line, column: at.column, message }
}

/// What an escape sequence stands for: the decoded character and the cursor
/// behind the sequence, or the error and the cursor where it was found.
/// `c` is the cursor behind the backslash.
pub open spec fn scan_escape(s: Seq<char>, c: Cursor) -> (Result<char, ErrorView>, Cursor) {
    if c.pos >= s.len() {
        (Err(lex_error(c, "Unexpected end of input in escape sequence"@)), c)
    } else {
        let ch = s[c.pos as int];
        if ch == '"' || ch == '\'' || ch == '\\' {
            (Ok(ch), c.ahead(1))
        } else if ch == 'n' {
            (Ok('\n'), c.ahead(1))
        } else if ch == 'r' {
            (Ok('\r'), c.ahead(1))
        } else if ch == 't' {
            (Ok('\t'), c.ahead(1))
        } else if ch == 'b' {
            (Ok('\u{8}'), c.ahead(1))
        } else if ch == 'f' {
            (Ok('\u{c}'), c.ahead(1))
        } else if ch == '0' {
            if pair_at(s, c.pos, '0', '0') {
                (
                    Err(
                        lex_error(
                            c,
                            "Octal escape sequences are not supported. Use \\x00 instead."@,
                        ),
                    ),
                    c,
                )
            } else {
                (Ok('\0'), c.ahead(1))
            }
        } else if ch == 'x' {
            let n = hex_run(s, c.pos + 1, 2);
            let digits = s.subrange(c.pos + 1 as int, c.pos + 1 + n as int);
            if n == 2 {
                (Ok(hex_number(digits) as char), c.ahead(3))
            } else {
                (
                    Err(lex_error(c.ahead(1 + n), "Incomplete hex escape: \\x"@ + digits)),
                    c.ahead(1 + n),
                )
            }
        } else if ch == 'u' {
            let n = hex_run(s, c.pos + 1, 4);
            let digits = s.subrange(c.pos + 1 as int, c.pos + 1 + n as int);
            if n == 4 {
                (Ok(scalar_or_replacement(hex_number(digits))), c.ahead(5))
            } else {
                (
                    Err(lex_error(c.ahead(1 + n), "Incomplete unicode escape: \\u"@ + digits)),
                    c.ahead(1 + n),
                )
            }
        } else {
            (Err(lex_error(c, "Invalid escape sequence: \\"@.push(ch))), c)
        }
    }
}

/// The rest of a string literal: `acc` holds what has been decoded so far, `c`
/// is the cursor inside the literal and `open_column` the column of its
/// opening quote.
pub open spec fn scan_string(s: Seq<char>, c: Cursor, acc: Seq<char>, open_column: nat) -> (
    Result<TokenView, ErrorView>,
    Cursor,
)
    decreases s.len() - c.pos,
{
    if c.pos >= s.len() {
        (
            Err(
                ErrorView::Lexer {
                    line: c.line,
                    column: open_column,
                    message: "Unterminated string literal"@,
                },
            ),
            c,
        )
    } else {
        let ch = s[c.pos as int];
        if ch == '"' {
            (Ok(TokenView::String(acc)), c.ahead(1))
        } else if ch == '\\' {
            proof {
                hex_run_bounded(s, c.pos + 2, 2);
                hex_run_bounded(s, c.pos + 2, 4);
            }
            let (decoded, behind) = scan_escape(s, c.ahead(1));
            match decoded {
                Ok(d) => scan_string(s, behind, acc.push(d), open_column),
                Err(e) => (Err(e), behind),
            }
        } else {
            scan_string(s, c.step(ch), acc.push(ch), open_column)
        }
    }
}

/// Where the parts of the number literal that starts at `pos` end.
pub struct NumberShape {
    /// Behind the sign, where the integer digits start.
    pub int_start: nat,
    /// Behind the integer digits.
    pub int_end: nat,
    /// Behind the point and the fraction digits; `int_end` where there is no point.
    pub frac_end: nat,
    /// Whether an exponent mark follows.
    pub has_exp: bool,
    /// Behind the exponent mark, where the exponent's sign or digits start.
    pub exp_start: nat,
    /// Behind the exponent's sign, where its digits start.
    pub exp_digits: nat,
    /// Behind the whole literal.
    pub end: nat,
}

/// Whether the character at `pos` is `ch`.
pub open spec fn char_at(s: Seq<char>, pos: nat, ch: char) -> bool {
    pos < s.len() && s[pos as int] == ch
}

/// The shape of the number literal that starts at `pos`: an optional `-`,
/// digits, an optional point with digits, and an optional exponent, which is
/// `e` or `E`, an optional sign, and digits.
pub open spec fn number_shape(s: Seq<char>, pos: nat) -> NumberShape {
    let int_start = if char_at(s, pos, '-') {
        pos + 1
    } else {
        pos
    };
    let int_end = digits_end(s, int_start);
    let frac_end = if char_at(s, int_end, '.') {
        digits_end(s, int_end + 1)
    } else {
        int_end
    };
    let has_exp = char_at(s, frac_end, 'e') || char_at(s, frac_end, 'E');
    let exp_start = if has_exp {
        frac_end + 1
    } else {
        frac_end
    };
    let exp_digits = if has_exp && (char_at(s, exp_start, '+') || char_at(s, exp_start, '-')) {
        exp_start + 1
    } else {
        exp_start
    };
    let end = if has_exp {
        digits_end(s, exp_digits)
    } else {
        frac_end
    };
    NumberShape { int_start, int_end, frac_end, has_exp, exp_start, exp_digits, end }
}

impl NumberShape {
    /// Whether the literal has a digit before its exponent.
    pub open spec fn has_mantissa_digit(self) -> bool {
        self.int_end > self.int_start || self.frac_end > self.int_end + 1
    }

    /// The literal's text, with the exponent mark written `e`.
    pub open spec fn text(self, s: Seq<char>, pos: nat) -> Seq<char> {
        if self.has_exp {
            s.subrange(pos as int, self.frac_end as int).push('e') + s.subrange(
                self.exp_start as int,
                self.end as int,
            )
        } else {
            s.subrange(pos as int, self.frac_end as int)
        }
    }
}

/// The number token that starts at `c`, where a `-` or a digit stands.
pub open spec fn scan_number(s: Seq<char>, c: Cursor) -> (Result<TokenView, ErrorView>, Cursor) {
    let shape = number_shape(s, c.pos);
    let behind = c.ahead((shape.end - c.pos) as nat);
    if shape.has_exp && shape.end == shape.exp_digits {
        (Err(lex_error(behind, "Missing exponent digits in scientific notation"@)), behind)
    } else if !shape.has_mantissa_digit() {
        (
            Err(
                ErrorView::Lexer {
                    line: c.line,
                    column: c.column,
                    message: "Failed to parse number: "@ + shape.text(s, c.pos),
                },
            ),
            behind,
        )
    } else {
        (Ok(TokenView::Number(shape.text(s, c.pos))), behind)
    }
}

/// The token that `name` spells: a reserved word or an identifier.
pub open spec fn word_token(name: Seq<char>) -> TokenView {
    if name == "true"@ {
        TokenView::Boolean(true)
    } else if name == "false"@ {
        TokenView::Boolean(false)
    } else if name == "null"@ {
        TokenView::Null
    } else {
        TokenView::Identifier(name)
    }
}

/// The token that starts at `c`, and the cursor behind it; `c` stands where
/// the blanks and comments before the token end.
pub open spec fn scan_token(s: Seq<char>, c: Cursor) -> (Result<TokenView, ErrorView>, Cursor) {
    if c.pos >= s.len() {
        (Ok(TokenView::Eof), c)
    } else {
        let ch = s[c.pos as int];
        if ch == '(' {
            (Ok(TokenView::LeftParen), c.ahead(1))
        } else if ch == ')' {
            (Ok(TokenView::RightParen), c.ahead(1))
        } else if ch == ',' {
            (Ok(TokenView::Comma), c.ahead(1))
        } else if ch == ';' {
            (Ok(TokenView::Semicolon), c.ahead(1))
        } else if ch == '"' {
            scan_string(s, c.ahead(1), Seq::empty(), c.column)
        } else if ch == '-' || is_digit(ch) {
            scan_number(s, c)
        } else if is_ident_start(ch) {
            let end = ident_end(s, c.pos);
            (Ok(word_token(s.subrange(c.pos as int, end as int))), c.ahead((end - c.pos) as nat))
        } else {
            (Err(lex_error(c, "Unexpected character: '"@.push(ch).push('\''))), c)
        }
    }
}

/// The next token of `s` from `c` on, and the cursor behind it.
pub open spec fn next_token_spec(s: Seq<char>, c: Cursor) -> (
    Result<TokenView, ErrorView>,
    Cursor,
) {
    scan_token(s, skip_trivia(s, c, Trivia::Blank))
}

/// Skipping blanks and comments moves the cursor forward, and not past the end.
pub proof fn skip_trivia_advances(s: Seq<char>, c: Cursor, mode: Trivia)
    requires
        c.pos <= s.len(),
    ensures
        c.pos <= skip_trivia(s, c, mode).pos <= s.len(),
    decreases s.len() - c.pos, (if mode is Line { 1int } else { 0int }),
{
    if c.pos < s.len() {
        let ch = s[c.pos as int];
        match mode {
            Trivia::Blank => if is_blank(ch) {
                skip_trivia_advances(s, c.step(ch), Trivia::Blank);
            } else if pair_at(s, c.pos, '/', '/') {
                skip_trivia_advances(s, c.ahead(2), Trivia::Line);
            } else if pair_at(s, c.pos, '/', '*') {
                skip_trivia_advances(
                    s,
                    c.ahead(2),
                    Trivia::Block { line: c.line, column: c.column + 2 },
                );
            },
            Trivia::Line => if ch == '\n' {
                skip_trivia_advances(s, c, Trivia::Blank);
            } else {
                skip_trivia_advances(s, c.ahead(1), Trivia::Line);
            },
            Trivia::Block { line, column } => if pair_at(s, c.pos, '*', '/') {
                skip_trivia_advances(s, c.ahead(2), Trivia::Blank);
            } else {
                skip_trivia_advances(s, c.step(ch), mode);
            },
        }
    }
}

/// A run of digits ends at or behind its start, inside the input, and holds digits only.
pub proof fn digits_end_bounds(s: Seq<char>, pos: nat)
    requires
        pos <= s.len(),
    ensures
        pos <= digits_end(s, pos) <= s.len(),
        forall|i: int| pos <= i < digits_end(s, pos) ==> is_digit(#[trigger] s[i]),
        digits_end(s, pos) < s.len() ==> !is_digit(s[digits_end(s, pos) as int]),
    decreases s.len() - pos,
{
    if pos < s.len() && is_digit(s[pos as int]) {
        digits_end_bounds(s, pos + 1);
    }
}

/// A run of identifier characters ends at or behind its start, inside the
/// input, and holds identifier characters only.
pub proof fn ident_end_bounds(s: Seq<char>, pos: nat)
    requires
        pos <= s.len(),
    ensures
        pos <= ident_end(s, pos) <= s.len(),
        forall|i: int| pos <= i < ident_end(s, pos) ==> is_ident_part(#[trigger] s[i]),
        ident_end(s, pos) < s.len() ==> !is_ident_part(s[ident_end(s, pos) as int]),
    decreases s.len() - pos,
{
    if pos < s.len() && is_ident_part(s[pos as int]) {
        ident_end_bounds(s, pos + 1);
    }
}

/// Reading a string literal moves the cursor forward, and not past the end.
pub proof fn scan_string_advances(s: Seq<char>, c: Cursor, acc: Seq<char>, open_column: nat)
    requires
        c.pos <= s.len(),
    ensures
        c.pos <= scan_string(s, c, acc, open_column).1.pos <= s.len(),
        scan_string(s, c, acc, open_column).0 is Ok ==> c.pos < scan_string(
            s,
            c,
            acc,
            open_column,
        ).1.pos,
        scan_string(s, c, acc, open_column).0 != Ok::<TokenView, ErrorView>(TokenView::Eof),
    decreases s.len() - c.pos,
{
    if c.pos < s.len() {
        let ch = s[c.pos as int];
        if ch == '"' {
        } else if ch == '\\' {
            hex_run_bounded(s, c.pos + 2, 2);
            hex_run_bounded(s, c.pos + 2, 4);
            let (decoded, behind) = scan_escape(s, c.ahead(1));
            match decoded {
                Ok(d) => {
                    scan_string_advances(s, behind, acc.push(d), open_column);
                },
                Err(e) => {},
            }
        } else {
            scan_string_advances(s, c.step(ch), acc.push(ch), open_column);
        }
    }
}

/// Reading a token moves the cursor forward, and not past the end; every
/// token but the end of the input takes at least one character.
pub proof fn next_token_advances(s: Seq<char>, c: Cursor)
    requires
        c.pos <= s.len(),
    ensures
        c.pos <= next_token_spec(s, c).1.pos <= s.len(),
        next_token_spec(s, c).0 is Ok && next_token_spec(s, c).0 != Ok::<TokenView, ErrorView>(
            TokenView::Eof,
        ) ==> c.pos < next_token_spec(s, c).1.pos,
{
    skip_trivia_advances(s, c, Trivia::Blank);
    let at = skip_trivia(s, c, Trivia::Blank);
    if at.pos < s.len() {
        let ch = s[at.pos as int];
        if ch == '"' {
            scan_string_advances(s, at.ahead(1), Seq::empty(), at.column);
        } else if ch == '-' || is_digit(ch) {
            let shape = number_shape(s, at.pos);
            digits_end_bounds(s, shape.int_start);
            if shape.int_end + 1 <= s.len() {
                digits_end_bounds(s, shape.int_end + 1);
            }
            if shape.exp_digits <= s.len() {
                digits_end_bounds(s, shape.exp_digits);
            }
        } else if is_ident_start(ch) {
            ident_end_bounds(s, at.pos);
        }
    }
}

/// Whether `c` can be the cursor of a lexer that has consumed `c.pos`
/// characters of `s`.
pub open spec fn cursor_in(s: Seq<char>, c: Cursor) -> bool {
    c.pos <= s.len() && 1 <= c.line <= c.pos + 1 && 1 <= c.column <= c.pos + 1
}

/// Splits a preference file into tokens, one call of
/// [`Lexer::next_token`] at a time.
pub struct Lexer {
    chars: Vec<char>,
    pos: usize,
    line: usize,
    column: usize,
}

fn is_digit_char(ch: char) -> (yes: bool)
    ensures
        yes == is_digit(ch),
{
    '0' <= ch && ch <= '9'
}

fn is_ident_start_char(ch: char) -> (yes: bool)
    ensures
        yes == is_ident_start(ch),
{
    ('a' <= ch && ch <= 'z') || ('A' <= ch && ch <= 'Z') || ch == '_'
}

fn is_hex_digit_char(ch: char) -> (yes: bool)
    ensures
        yes == is_hex_digit(ch),
{
    is_digit_char(ch) || ('a' <= ch && ch <= 'f') || ('A' <= ch && ch <= 'F')
}

fn hex_digit_value(ch: char) -> (v: u32)
    requires
        is_hex_digit(ch),
    ensures
        v == hex_value(ch),
        v < 16,
{
    let code: u32 = ch as u32;
    if is_digit_char(ch) {
        code - 48
    } else if 'a' <= ch && ch <= 'f' {
        code - 87
    } else {
        code - 55
    }
}

impl Lexer {
    /// The text being read.
    pub closed spec fn input(&self) -> Seq<char> {
        self.chars@
    }

    /// Where the lexer stands in its input.
    pub closed spec fn cursor(&self) -> Cursor {
        Cursor { pos: self.pos as nat, line: self.line as nat, column: self.column as nat }
    }

    /// The lexer's invariant: the cursor lies in the input, and the line and
    /// column can still be counted up to its end.
    pub closed spec fn wf(&self) -> bool {
        cursor_in(self.chars@, self.cursor()) && self.chars.len() < usize::MAX
    }

    /// A lexer at the start of `input`.
    pub fn new(input: &str) -> (lexer: Lexer)
        requires
            input@.len() < usize::MAX,
        ensures
            lexer.wf(),
            lexer.input() == input@,
            lexer.cursor() == Cursor::start(),
    {
        Lexer { chars: chars_of(input), pos: 0, line: 1, column: 1 }
    }

    /// A lexer at the start of the text `chars`.
    pub fn from_chars(chars: Vec<char>) -> (lexer: Lexer)
        requires
            chars.len() < usize::MAX,
        ensures
            lexer.wf(),
            lexer.input() == chars@,
            lexer.cursor() == Cursor::start(),
    {
        Lexer { chars, pos: 0, line: 1, column: 1 }
    }

    /// The line that an error found now would be reported at, counted from 1.
    pub fn line(&self) -> (line: usize)
        requires
            self.wf(),
        ensures
            line == self.cursor().line,
            line >= 1,
    {
        self.line
    }

    /// The column that an error found now would be reported at, counted from 1.
    pub fn column(&self) -> (column: usize)
        requires
            self.wf(),
        ensures
            column == self.cursor().column,
            column >= 1,
    {
        self.column
    }

    /// Whether the character `ahead` places from the cursor is `ch`.
    fn looking_at(&self, ahead: usize, ch: char) -> (yes: bool)
        requires
            self.wf(),
            ahead <= 1,
        ensures
            yes == char_at(self.chars@, self.pos as nat + ahead as nat, ch),
    {
        self.chars.len() - self.pos > ahead && self.chars[self.pos + ahead] == ch
    }

    /// Consumes the character at the cursor.
    fn advance(&mut self)
        requires
            old(self).wf(),
            old(self).pos < old(self).chars.len(),
        ensures
            final(self).wf(),
            final(self).chars == old(self).chars,
            final(self).cursor() == old(self).cursor().step(old(self).chars@[old(self).pos as int]),
    {
        let ch = self.chars[self.pos];
        self.pos += 1;
        if ch == '\n' {
            self.line += 1;
            self.column = 1;
        } else {
            self.column += 1;
        }
    }

    /// Skips the blanks and comments before the next token.
    fn skip_whitespace_and_comments(&mut self)
        requires
            old(self).wf(),
        ensures
            final(self).wf(),
            final(self).chars == old(self).chars,
            final(self).cursor() == skip_trivia(
                old(self).chars@,
                old(self).cursor(),
                Trivia::Blank,
            ),
    {
        let ghost s = self.chars@;
        let ghost target = skip_trivia(s, self.cursor(), Trivia::Blank);
        let mut in_line = false;
        let mut in_block = false;
        let mut block_line: usize = 1;
        let mut block_column: usize = 1;
        loop
            invariant
                self.wf(),
                self.chars@ == s,
                self.chars == old(self).chars,
                target == skip_trivia(s, old(self).cursor(), Trivia::Blank),
                !(in_line && in_block),
                in_block ==> 1 <= block_line <= self.pos + 1 && 1 <= block_column <= self.pos + 1,
                target == skip_trivia(
                    s,
                    self.cursor(),
                    if in_line {
                        Trivia::Line
                    } else if in_block {
                        Trivia::Block { line: block_line as nat, column: block_column as nat }
                    } else {
                        Trivia::Blank
                    },
                ),
            decreases self.chars.len() - self.pos, (if in_line { 1int } else { 0int }),
        {
            if self.pos >= self.chars.len() {
                if in_block {
                    self.line = block_line;
                    self.column = block_column;
                }
                return ;
            }
            let ch = self.chars[self.pos];
            if in_line {
                if ch == '\n' {
                    in_line = false;
                } else {
                    self.advance();
                }
            } else if in_block {
                if ch == '*' && self.looking_at(1, '/') {
                    self.advance();
                    self.advance();
                    in_block = false;
                } else {
                    self.advance();
                }
            } else if ch == ' ' || ch == '\t' || ch == '\r' || ch == '\n' {
                self.advance();
            } else if ch == '/' && self.looking_at(1, '/') {
                self.advance();
                self.advance();
                in_line = true;
            } else if ch == '/' && self.looking_at(1, '*') {
                self.advance();
                self.advance();
                in_block = true;
                block_line = self.line;
                block_column = self.column;
            } else {
                return ;
            }
        }
    }
    /// Consumes the digits at the cursor.
    fn skip_digits(&mut self)
        requires
            old(self).wf(),
        ensures
            final(self).wf(),
            final(self).chars == old(self).chars,
            final(self).pos == digits_end(old(self).chars@, old(self).pos as nat),
            final(self).pos >= old(self).pos,
            final(self).cursor() == old(self).cursor().ahead(
                (final(self).pos - old(self).pos) as nat,
            ),
    {
        while self.pos < self.chars.len() && is_digit_char(self.chars[self.pos])
            invariant
                self.wf(),
                self.chars == old(self).chars,
                self.pos >= old(self).pos,
                digits_end(self.chars@, self.pos as nat) == digits_end(
                    old(self).chars@,
                    old(self).pos as nat,
                ),
                self.cursor() == old(self).cursor().ahead((self.pos - old(self).pos) as nat),
            decreases self.chars.len() - self.pos,
        {
            self.advance();
        }
    }

    /// Consumes the identifier characters at the cursor.
    fn skip_word(&mut self)
        requires
            old(self).wf(),
        ensures
            final(self).wf(),
            final(self).chars == old(self).chars,
            final(self).pos == ident_end(old(self).chars@, old(self).pos as nat),
            final(self).pos >= old(self).pos,
            final(self).cursor() == old(self).cursor().ahead(
                (final(self).pos - old(self).pos) as nat,
            ),
    {
        while self.pos < self.chars.len() && (is_ident_start_char(self.chars[self.pos])
            || is_digit_char(self.chars[self.pos]))
            invariant
                self.wf(),
                self.chars == old(self).chars,
                self.pos >= old(self).pos,
                ident_end(self.chars@, self.pos as nat) == ident_end(
                    old(self).chars@,
                    old(self).pos as nat,
                ),
                self.cursor() == old(self).cursor().ahead((self.pos - old(self).pos) as nat),
            decreases self.chars.len() - self.pos,
        {
            self.advance();
        }
    }

    /// Reads an identifier or a reserved word.
    fn lex_identifier(&mut self) -> (out: Token)
        requires
            old(self).wf(),
        ensures
            final(self).wf(),
            final(self).chars == old(self).chars,
            ({
                let s = old(self).chars@;
                let c = old(self).cursor();
                let end = ident_end(s, c.pos);
                &&& out@ == word_token(s.subrange(c.pos as int, end as int))
                &&& final(self).cursor() == c.ahead((end - c.pos) as nat)
            }),
    {
        let start = self.pos;
        self.skip_word();
        let name = string_of(&self.chars, start, self.pos);
        if name.as_str().eq("true") {
            Token::Boolean(true)
        } else if name.as_str().eq("false") {
            Token::Boolean(false)
        } else if name.as_str().eq("null") {
            Token::Null
        } else {
            Token::Identifier(name)
        }
    }

    /// A lexer error at the cursor.
    fn error_here(&self, message: String) -> (out: Error)
        requires
            self.wf(),
        ensures
            out@ == lex_error(self.cursor(), message@),
            is_located(out),
    {
        Error::Lexer { line: self.line, column: self.column, message }
    }

    /// Consumes the mantissa of a number literal: a sign, digits, and a
    /// point with digits. Tells whether a digit was among them.
    fn skip_mantissa(&mut self) -> (has_digit: bool)
        requires
            old(self).wf(),
        ensures
            final(self).wf(),
            final(self).chars == old(self).chars,
            final(self).pos == number_shape(old(self).chars@, old(self).pos as nat).frac_end,
            final(self).pos >= old(self).pos,
            final(self).cursor() == old(self).cursor().ahead(
                (final(self).pos - old(self).pos) as nat,
            ),
            has_digit == number_shape(old(self).chars@, old(self).pos as nat).has_mantissa_digit(),
    {
        if self.looking_at(0, '-') {
            self.advance();
        }
        let int_start = self.pos;
        self.skip_digits();
        let int_end = self.pos;
        if self.looking_at(0, '.') {
            self.advance();
            self.skip_digits();
        }
        int_end > int_start || self.pos - int_end > 1
    }

    /// Consumes the exponent of a number literal, if one stands at the
    /// cursor: the mark, a sign and digits. Gives the place behind the mark
    /// and the place where the digits start; both are the cursor's place
    /// where no exponent stands there.
    fn skip_exponent(&mut self) -> (out: (usize, usize))
        requires
            old(self).wf(),
        ensures
            final(self).wf(),
            final(self).chars == old(self).chars,
            final(self).pos >= out.1 >= out.0 >= old(self).pos,
            final(self).cursor() == old(self).cursor().ahead(
                (final(self).pos - old(self).pos) as nat,
            ),
            ({
                let s = old(self).chars@;
                let from = old(self).pos as nat;
                if char_at(s, from, 'e') || char_at(s, from, 'E') {
                    &&& out.0 == from + 1
                    &&& out.1 == (if char_at(s, from + 1, '+') || char_at(s, from + 1, '-') {
                        from + 2
                    } else {
                        from + 1
                    })
                    &&& final(self).pos == digits_end(s, out.1 as nat)
                } else {
                    out.0 == from && out.1 == from && final(self).pos == from
                }
            }),
    {
        if !(self.looking_at(0, 'e') || self.looking_at(0, 'E')) {
            return (self.pos, self.pos);
        }
        self.advance();
        let exp_start = self.pos;
        if self.looking_at(0, '+') || self.looking_at(0, '-') {
            self.advance();
        }
        let exp_digits = self.pos;
        self.skip_digits();
        (exp_start, exp_digits)
    }

    /// Reads a number literal; the cursor stands at its `-` or first digit.
    fn lex_number(&mut self) -> (out: Result<Token, Error>)
        requires
            old(self).wf(),
        ensures
            final(self).wf(),
            final(self).chars == old(self).chars,
            matches_outcome(out, final(self).cursor(), scan_number(old(self).chars@, old(self).cursor())),
            out is Err ==> is_located(out->Err_0),
    {
        let ghost s = self.chars@;
        let ghost shape = number_shape(s, self.pos as nat);
        let start = self.pos;
        let start_line = self.line;
        let start_column = self.column;
        let has_digit = self.skip_mantissa();
        let frac_end = self.pos;
        let (exp_start, exp_digits) = self.skip_exponent();
        let has_exp = exp_start > frac_end;
        assert(shape.has_exp == has_exp && shape.exp_start == exp_start && shape.exp_digits
            == exp_digits && shape.end == self.pos);
        if has_exp && self.pos == exp_digits {
            return Err(
                self.error_here(String::from_str("Missing exponent digits in scientific notation")),
            );
        }
        let mut text = string_of(&self.chars, start, frac_end);
        if has_exp {
            text.push('e');
            text.append(string_of(&self.chars, exp_start, self.pos).as_str());
        }
        assert(text@ == shape.text(s, start as nat));
        if has_digit {
            Ok(Token::Number(text))
        } else {
            Err(
                Error::Lexer {
                    line: start_line,
                    column: start_column,
                    message: crate::error::join2("Failed to parse number: ", text.as_str()),
                },
            )
        }
    }

    /// Consumes up to `limit` hexadecimal digits and gives the number they write.
    fn read_hex(&mut self, limit: u32) -> (out: (u32, u32))
        requires
            old(self).wf(),
            limit <= 4,
        ensures
            final(self).wf(),
            final(self).chars == old(self).chars,
            out.0 == hex_run(old(self).chars@, old(self).pos as nat, limit as nat),
            final(self).pos == old(self).pos + out.0,
            final(self).cursor() == old(self).cursor().ahead(out.0 as nat),
            out.1 == hex_number(
                old(self).chars@.subrange(old(self).pos as int, final(self).pos as int),
            ),
            out.0 == 2 ==> out.1 < 0x100,
            out.1 < 0x10000,
    {
        let ghost s = self.chars@;
        let ghost start = self.pos as nat;
        let mut count: u32 = 0;
        let mut value: u32 = 0;
        assert(s.subrange(start as int, start as int) == Seq::<char>::empty());
        while count < limit && self.pos < self.chars.len() && is_hex_digit_char(
            self.chars[self.pos],
        )
            invariant
                self.wf(),
                self.chars == old(self).chars,
                s == self.chars@,
                start == old(self).pos,
                count <= limit <= 4,
                self.pos == start + count,
                self.cursor() == old(self).cursor().ahead(count as nat),
                hex_run(s, start, limit as nat) == count + hex_run(
                    s,
                    self.pos as nat,
                    (limit - count) as nat,
                ),
                value == hex_number(s.subrange(start as int, self.pos as int)),
                count == 0 ==> value == 0,
                count == 1 ==> value < 0x10,
                count == 2 ==> value < 0x100,
                count == 3 ==> value < 0x1000,
                count == 4 ==> value < 0x10000,
            decreases limit - count,
        {
            let digit = hex_digit_value(self.chars[self.pos]);
            proof {
                let longer = s.subrange(start as int, self.pos + 1);
                assert(longer.drop_last() == s.subrange(start as int, self.pos as int));
                assert(longer.last() == s[self.pos as int]);
            }
            value = value * 16 + digit;
            count += 1;
            self.advance();
        }
        (count, value)
    }

    /// Decodes an escape sequence; the cursor stands behind its backslash.
    fn lex_escape(&mut self) -> (out: Result<char, Error>)
        requires
            old(self).wf(),
        ensures
            final(self).wf(),
            final(self).chars == old(self).chars,
            ({
                let (decoded, behind) = scan_escape(old(self).chars@, old(self).cursor());
                &&& final(self).cursor() == behind
                &&& match out {
                    Ok(ch) => decoded == Ok::<char, ErrorView>(ch),
                    Err(e) => decoded == Err::<char, ErrorView>(e@),
                }
            }),
            out is Err ==> is_located(out->Err_0),
    {
        if self.pos >= self.chars.len() {
            return Err(
                self.error_here(String::from_str("Unexpected end of input in escape sequence")),
            );
        }
        let ch = self.chars[self.pos];
        if ch == '"' || ch == '\'' || ch == '\\' {
            self.advance();
            Ok(ch)
        } else if ch == 'n' {
            self.advance();
            Ok('\n')
        } else if ch == 'r' {
            self.advance();
            Ok('\r')
        } else if ch == 't' {
            self.advance();
            Ok('\t')
        } else if ch == 'b' {
            self.advance();
            Ok('\u{8}')
        } else if ch == 'f' {
            self.advance();
            Ok('\u{c}')
        } else if ch == '0' {
            if self.looking_at(1, '0') {
                return Err(
                    self.error_here(
                        String::from_str(
                            "Octal escape sequences are not supported. Use \\x00 instead.",
                        ),
                    ),
                );
            }
            self.advance();
            Ok('\0')
        } else if ch == 'x' {
            self.advance();
            let start = self.pos;
            let (count, value) = self.read_hex(2);
            if count == 2 {
                let byte: u8 = value as u8;
                Ok(byte as char)
            } else {
                let digits = string_of(&self.chars, start, self.pos);
                Err(
                    self.error_here(
                        crate::error::join2("Incomplete hex escape: \\x", digits.as_str()),
                    ),
                )
            }
        } else if ch == 'u' {
            self.advance();
            let start = self.pos;
            let (count, value) = self.read_hex(4);
            if count == 4 {
                match char::from_u32(value) {
                    Some(decoded) => Ok(decoded),
                    None => Ok('\u{FFFD}'),
                }
            } else {
                let digits = string_of(&self.chars, start, self.pos);
                Err(
                    self.error_here(
                        crate::error::join2("Incomplete unicode escape: \\u", digits.as_str()),
                    ),
                )
            }
        } else {
            let mut message = String::from_str("Invalid escape sequence: \\");
            message.push(ch);
            Err(self.error_here(message))
        }
    }

    /// Reads a string literal; the cursor stands at its opening quote.
    fn lex_string(&mut self) -> (out: Result<Token, Error>)
        requires
            old(self).wf(),
            old(self).pos < old(self).chars.len(),
            old(self).chars@[old(self).pos as int] == '"',
        ensures
            final(self).wf(),
            final(self).chars == old(self).chars,
            matches_outcome(
                out,
                final(self).cursor(),
                scan_string(
                    old(self).chars@,
                    old(self).cursor().ahead(1),
                    Seq::empty(),
                    old(self).cursor().column,
                ),
            ),
            out is Err ==> is_located(out->Err_0),
    {
        let ghost s = self.chars@;
        let open_column = self.column;
        self.advance();
        let ghost target = scan_string(s, self.cursor(), Seq::empty(), open_column as nat);
        let mut decoded = String::new();
        loop
            invariant
                self.wf(),
                self.chars == old(self).chars,
                s == self.chars@,
                open_column >= 1,
                target == scan_string(
                    s,
                    old(self).cursor().ahead(1),
                    Seq::empty(),
                    old(self).cursor().column,
                ),
                target == scan_string(s, self.cursor(), decoded@, open_column as nat),
            decreases self.chars.len() - self.pos,
        {
            if self.pos >= self.chars.len() {
                return Err(
                    Error::Lexer {
                        line: self.line,
                        column: open_column,
                        message: String::from_str("Unterminated string literal"),
                    },
                );
            }
            let ch = self.chars[self.pos];
            if ch == '"' {
                self.advance();
                return Ok(Token::String(decoded));
            } else if ch == '\\' {
                proof {
                    hex_run_bounded(s, self.pos as nat + 2, 2);
                    hex_run_bounded(s, self.pos as nat + 2, 4);
                }
                self.advance();
                match self.lex_escape() {
                    Ok(d) => {
                        decoded.push(d);
                    },
                    Err(e) => {
                        return Err(e);
                    },
                }
            } else {
                self.advance();
                decoded.push(ch);
            }
        }
    }

    /// Reads the next token. After the last token every call gives
    /// [`Token::Eof`]. After an error the cursor stands where the error was
    /// found; the error is a lexer error and names a line and a column,
    /// both counted from 1.
    pub fn next_token(&mut self) -> (out: Result<Token, Error>)
        requires
            old(self).wf(),
        ensures
            final(self).wf(),
            final(self).input() == old(self).input(),
            matches_outcome(
                out,
                final(self).cursor(),
                next_token_spec(old(self).input(), old(self).cursor()),
            ),
            out is Err ==> is_located(out->Err_0),
    {
        self.skip_whitespace_and_comments();
        if self.pos >= self.chars.len() {
            return Ok(Token::Eof);
        }
        let ch = self.chars[self.pos];
        if ch == '(' {
            self.advance();
            Ok(Token::LeftParen)
        } else if ch == ')' {
            self.advance();
            Ok(Token::RightParen)
        } else if ch == ',' {
            self.advance();
            Ok(Token::Comma)
        } else if ch == ';' {
            self.advance();
            Ok(Token::Semicolon)
        } else if ch == '"' {
            self.lex_string()
        } else if ch == '-' || is_digit_char(ch) {
            self.lex_number()
        } else if is_ident_start_char(ch) {
            Ok(self.lex_identifier())
        } else {
            let mut message = String::from_str("Unexpected character: '");
            message.push(ch);
            message.push('\'');
            Err(self.error_here(message))
        }
    }
}

/// Whether `e` is a lexer error that names a line and a column counted from 1.
pub open spec fn is_located(e: Error) -> bool {
    e matches Error::Lexer { line, column, message } && line >= 1 && column >= 1
}

/// After the end of the input was reached, every further token is the end
/// of the input, and the cursor stays.
pub proof fn end_is_final(s: Seq<char>, c: Cursor)
    requires
        c.pos <= s.len(),
        next_token_spec(s, c).0 == Ok::<TokenView, ErrorView>(TokenView::Eof),
    ensures
        next_token_spec(s, next_token_spec(s, c).1) == next_token_spec(s, c),
{
    let at = skip_trivia(s, c, Trivia::Blank);
    skip_trivia_advances(s, c, Trivia::Blank);
    if at.pos < s.len() {
        let ch = s[at.pos as int];
        if ch == '"' {
            scan_string_advances(s, at.ahead(1), Seq::empty(), at.column);
        } else if is_ident_start(ch) {
            ident_end_bounds(s, at.pos);
            let name = s.subrange(at.pos as int, ident_end(s, at.pos) as int);
            assert(word_token(name) != TokenView::Eof);
        }
    }
}

/// Whether the outcome `out`, with the lexer left at `at`, is the outcome
/// `expected` that the model gives.
pub open spec fn matches_outcome(
    out: Result<Token, Error>,
    at: Cursor,
    expected: (Result<TokenView, ErrorView>, Cursor),
) -> bool {
    &&& at == expected.1
    &&& match out {
        Ok(token) => expected.0 == Ok::<TokenView, ErrorView>(token@),
        Err(e) => expected.0 == Err::<TokenView, ErrorView>(e@),
    }
}

} // verus!
