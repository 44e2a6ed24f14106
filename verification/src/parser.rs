//! Parses a preference file into entries: one statement
//! `name("key", value);` gives one entry.

use crate::error::{join2, Error, ErrorView};
use crate::lexer::{next_token_spec, Cursor, Lexer, Token, TokenView};
use crate::number::number_value;
use crate::types::{PrefEntry, PrefEntryView, PrefType, PrefValue, PrefValueView};
use vstd::prelude::*;
use vstd::string::StringExecFns;

verus! {

/// The preference type that the function name `name` stands for.
pub open spec fn pref_type_of(name: Seq<char>) -> Option<PrefType> {
    if name == "user_pref"@ {
        Some(PrefType::User)
    } else if name == "pref"@ {
        Some(PrefType::Default)
    } else if name == "lock_pref"@ {
        Some(PrefType::Locked)
    } else if name == "sticky_pref"@ {
        Some(PrefType::Sticky)
    } else {
        None
    }
}

/// The value that a token stands for, where it can be a statement's value.
pub open spec fn value_of_token(token: TokenView) -> Option<PrefValueView> {
    match token {
        TokenView::String(s) => Some(PrefValueView::String(s)),
        TokenView::Number(text) => Some(number_value(text)),
        TokenView::Boolean(b) => Some(PrefValueView::Bool(b)),
        TokenView::Null => Some(PrefValueView::Null),
        _ => None,
    }
}

/// How an error message names a token.
pub open spec fn describe(token: TokenView) -> Seq<char> {
    match token {
        TokenView::Identifier(name) => "identifier '"@ + name + "'"@,
        TokenView::String(s) => "string \""@ + s + "\""@,
        TokenView::Number(text) => "number "@ + text,
        TokenView::Boolean(b) => if b {
            "'true'"@
        } else {
            "'false'"@
        },
        TokenView::Null => "'null'"@,
        TokenView::LeftParen => "'('"@,
        TokenView::RightParen => "')'"@,
        TokenView::Comma => "','"@,
        TokenView::Semicolon => "';'"@,
        TokenView::Eof => "end of input"@,
    }
}

/// A parser error at the line and column of `at`.
pub open spec fn parser_error(at: Cursor, message: Seq<char>) -> ErrorView {
    ErrorView::Parser { line: at.line, column: at.column, message }
}

/// The error that says `wanted` was expected where `found` stands; `at` is
/// the cursor behind `found`.
pub open spec fn mismatch(at: Cursor, wanted: Seq<char>, found: TokenView) -> ErrorView {
    parser_error(at, "Expected "@ + wanted + ", found "@ + describe(found))
}

/// A lexer's error as the parser hands it on: the same place and message.
pub open spec fn lexer_failure(e: ErrorView) -> ErrorView {
    match e {
        ErrorView::Lexer { line, column, message } => ErrorView::Parser { line, column, message },
        other => other,
    }
}

/// Reads the token `wanted`, which messages call `name`: the cursor behind
/// it, or the error where another token or none stands there.
pub open spec fn expect(s: Seq<char>, c: Cursor, wanted: TokenView, name: Seq<char>) -> Result<
    Cursor,
    ErrorView,
> {
    let (token, behind) = next_token_spec(s, c);
    match token {
        Err(e) => Err(lexer_failure(e)),
        Ok(found) => if found == wanted {
            Ok(behind)
        } else {
            Err(mismatch(behind, name, found))
        },
    }
}

/// Reads a statement's key, a string.
pub open spec fn expect_key(s: Seq<char>, c: Cursor) -> Result<(Seq<char>, Cursor), ErrorView> {
    let (token, behind) = next_token_spec(s, c);
    match token {
        Err(e) => Err(lexer_failure(e)),
        Ok(TokenView::String(key)) => Ok((key, behind)),
        Ok(found) => Err(mismatch(behind, "preference name string"@, found)),
    }
}

/// Reads a statement's value: a string, a number, a boolean or `null`.
pub open spec fn expect_value(s: Seq<char>, c: Cursor) -> Result<(PrefValueView, Cursor), ErrorView> {
    let (token, behind) = next_token_spec(s, c);
    match token {
        Err(e) => Err(lexer_failure(e)),
        Ok(found) => match value_of_token(found) {
            Some(value) => Ok((value, behind)),
            None => Err(mismatch(behind, "preference value"@, found)),
        },
    }
}

/// The entry that a statement gives; the parser leaves its origin open.
pub open spec fn parsed_entry(key: Seq<char>, value: PrefValueView, pref_type: PrefType)
    -> PrefEntryView {
    PrefEntryView { key, value, pref_type, explanation: None, source: None, source_file: None }
}

/// Reads what follows a statement's function name: `( "key" , value ) ;`.
pub open spec fn parse_arguments(s: Seq<char>, c: Cursor, pref_type: PrefType) -> Result<
    (PrefEntryView, Cursor),
    ErrorView,
> {
    match expect(s, c, TokenView::LeftParen, "'('"@) {
        Err(e) => Err(e),
        Ok(c1) => match expect_key(s, c1) {
            Err(e) => Err(e),
            Ok((key, c2)) => match expect(s, c2, TokenView::Comma, "','"@) {
                Err(e) => Err(e),
                Ok(c3) => match expect_value(s, c3) {
                    Err(e) => Err(e),
                    Ok((value, c4)) => match expect(s, c4, TokenView::RightParen, "')'"@) {
                        Err(e) => Err(e),
                        Ok(c5) => match expect(s, c5, TokenView::Semicolon, "';'"@) {
                            Err(e) => Err(e),
                            Ok(c6) => Ok((parsed_entry(key, value, pref_type), c6)),
                        },
                    },
                },
            },
        },
    }
}

/// Reads one statement whose first token, `first`, ends at `c`.
pub open spec fn parse_statement(s: Seq<char>, first: TokenView, c: Cursor) -> Result<
    (PrefEntryView, Cursor),
    ErrorView,
> {
    match first {
        TokenView::Identifier(name) => match pref_type_of(name) {
            Some(pref_type) => parse_arguments(s, c, pref_type),
            None => Err(parser_error(c, "Unknown preference function: '"@ + name + "'"@)),
        },
        found => Err(mismatch(c, "preference function"@, found)),
    }
}

/// Reading a statement's arguments moves the cursor forward, and not past the end.
pub proof fn parse_arguments_advances(s: Seq<char>, c: Cursor, pref_type: PrefType)
    requires
        c.pos <= s.len(),
    ensures
        parse_arguments(s, c, pref_type) is Ok ==> c.pos <= parse_arguments(
            s,
            c,
            pref_type,
        )->Ok_0.1.pos <= s.len(),
{
    crate::lexer::next_token_advances(s, c);
    if let Ok(c1) = expect(s, c, TokenView::LeftParen, "'('"@) {
        crate::lexer::next_token_advances(s, c1);
        if let Ok((key, c2)) = expect_key(s, c1) {
            crate::lexer::next_token_advances(s, c2);
            if let Ok(c3) = expect(s, c2, TokenView::Comma, "','"@) {
                crate::lexer::next_token_advances(s, c3);
                if let Ok((value, c4)) = expect_value(s, c3) {
                    crate::lexer::next_token_advances(s, c4);
                    if let Ok(c5) = expect(s, c4, TokenView::RightParen, "')'"@) {
                        crate::lexer::next_token_advances(s, c5);
                    }
                }
            }
        }
    }
}

/// `head` before the entries of `rest`, or the error of `rest`.
pub open spec fn prepend(head: Seq<PrefEntryView>, rest: Result<Seq<PrefEntryView>, ErrorView>)
    -> Result<Seq<PrefEntryView>, ErrorView> {
    match rest {
        Ok(entries) => Ok(head + entries),
        Err(e) => Err(e),
    }
}

/// The entries of the statements of `s` from `c` on, or the first error.
pub open spec fn parse_from(s: Seq<char>, c: Cursor) -> Result<Seq<PrefEntryView>, ErrorView>
    decreases s.len() - c.pos,
{
    if c.pos > s.len() {
        Ok(Seq::empty())
    } else {
        let (token, behind) = next_token_spec(s, c);
        match token {
            Err(e) => Err(lexer_failure(e)),
            Ok(TokenView::Eof) => Ok(Seq::empty()),
            Ok(first) => match parse_statement(s, first, behind) {
                Err(e) => Err(e),
                Ok((entry, next)) => {
                    proof {
                        crate::lexer::next_token_advances(s, c);
                        if let TokenView::Identifier(name) = first {
                            if let Some(pref_type) = pref_type_of(name) {
                                parse_arguments_advances(s, behind, pref_type);
                            }
                        }
                    }
                    prepend(seq![entry], parse_from(s, next))
                },
            },
        }
    }
}

/// What parsing the preference file `s` gives: one entry per statement, in
/// the order of the statements, or the first error. A file with more
/// characters than can be counted is refused.
pub open spec fn parse_spec(s: Seq<char>) -> Result<Seq<PrefEntryView>, ErrorView> {
    if s.len() >= usize::MAX {
        Err(ErrorView::Parser { line: 1, column: 1, message: "Input is too long"@ })
    } else {
        parse_from(s, Cursor::start())
    }
}

fn describe_token(token: &Token) -> (out: String)
    ensures
        out@ == describe(token@),
{
    match token {
        Token::Identifier(name) => {
            let mut out = join2("identifier '", name.as_str());
            out.append("'");
            out
        },
        Token::String(s) => {
            let mut out = join2("string \"", s.as_str());
            out.append("\"");
            out
        },
        Token::Number(text) => join2("number ", text.as_str()),
        Token::Boolean(b) => if *b {
            String::from_str("'true'")
        } else {
            String::from_str("'false'")
        },
        Token::Null => String::from_str("'null'"),
        Token::LeftParen => String::from_str("'('"),
        Token::RightParen => String::from_str("')'"),
        Token::Comma => String::from_str("','"),
        Token::Semicolon => String::from_str("';'"),
        Token::Eof => String::from_str("end of input"),
    }
}

/// Whether `e` is a parser error that names a line and a column counted from 1.
pub open spec fn is_parser_error(e: Error) -> bool {
    e matches Error::Parser { line, column, message } && line >= 1 && column >= 1
}

/// The error for `found` where `wanted` was expected; the lexer stands behind `found`.
fn mismatch_error(lexer: &Lexer, wanted: &str, found: &Token) -> (out: Error)
    requires
        lexer.wf(),
    ensures
        out@ == mismatch(lexer.cursor(), wanted@, found@),
        is_parser_error(out),
{
    let mut message = join2("Expected ", wanted);
    message.append(", found ");
    message.append(describe_token(found).as_str());
    Error::Parser { line: lexer.line(), column: lexer.column(), message }
}

/// The lexer's error as a parser error.
fn lexer_error(e: Error) -> (out: Error)
    requires
        crate::lexer::is_located(e),
    ensures
        out@ == lexer_failure(e@),
        is_parser_error(out),
{
    match e {
        Error::Lexer { line, column, message } => Error::Parser { line, column, message },
        other => other,
    }
}

/// Which punctuation mark a token is, if any.
#[derive(Clone, Copy, PartialEq, Eq, Structural)]
enum Mark {
    LeftParen,
    RightParen,
    Comma,
    Semicolon,
}

impl Mark {
    spec fn token(self) -> TokenView {
        match self {
            Mark::LeftParen => TokenView::LeftParen,
            Mark::RightParen => TokenView::RightParen,
            Mark::Comma => TokenView::Comma,
            Mark::Semicolon => TokenView::Semicolon,
        }
    }

    fn is(self, token: &Token) -> (yes: bool)
        ensures
            yes == (token@ == self.token()),
    {
        match (self, token) {
            (Mark::LeftParen, Token::LeftParen) => true,
            (Mark::RightParen, Token::RightParen) => true,
            (Mark::Comma, Token::Comma) => true,
            (Mark::Semicolon, Token::Semicolon) => true,
            _ => false,
        }
    }
}

/// Whether the result `out`, with the lexer left at `at`, is the result
/// `expected` that the model gives.
spec fn cursor_result(out: Result<(), Error>, at: Cursor, expected: Result<Cursor, ErrorView>)
    -> bool {
    match expected {
        Ok(c) => out is Ok && at == c,
        Err(e) => out is Err && out->Err_0@ == e,
    }
}

fn expect_mark(lexer: &mut Lexer, mark: Mark, name: &str) -> (out: Result<(), Error>)
    requires
        old(lexer).wf(),
    ensures
        final(lexer).wf(),
        final(lexer).input() == old(lexer).input(),
        out is Err ==> is_parser_error(out->Err_0),
        cursor_result(
            out,
            final(lexer).cursor(),
            expect(old(lexer).input(), old(lexer).cursor(), mark.token(), name@),
        ),
{
    match lexer.next_token() {
        Err(e) => Err(lexer_error(e)),
        Ok(found) => if mark.is(&found) {
            Ok(())
        } else {
            Err(mismatch_error(lexer, name, &found))
        },
    }
}

fn parse_key(lexer: &mut Lexer) -> (out: Result<String, Error>)
    requires
        old(lexer).wf(),
    ensures
        final(lexer).wf(),
        final(lexer).input() == old(lexer).input(),
        out is Err ==> is_parser_error(out->Err_0),
        match expect_key(old(lexer).input(), old(lexer).cursor()) {
            Ok((key, c)) => out is Ok && out->Ok_0@ == key && final(lexer).cursor() == c,
            Err(e) => out is Err && out->Err_0@ == e,
        },
{
    match lexer.next_token() {
        Err(e) => Err(lexer_error(e)),
        Ok(Token::String(key)) => Ok(key),
        Ok(found) => Err(mismatch_error(lexer, "preference name string", &found)),
    }
}

fn read_value(lexer: &mut Lexer) -> (out: Result<PrefValue, Error>)
    requires
        old(lexer).wf(),
    ensures
        final(lexer).wf(),
        final(lexer).input() == old(lexer).input(),
        out is Err ==> is_parser_error(out->Err_0),
        match expect_value(old(lexer).input(), old(lexer).cursor()) {
            Ok((value, c)) => out is Ok && out->Ok_0@ == value && final(lexer).cursor() == c,
            Err(e) => out is Err && out->Err_0@ == e,
        },
{
    match lexer.next_token() {
        Err(e) => Err(lexer_error(e)),
        Ok(Token::String(s)) => Ok(PrefValue::String(s)),
        Ok(Token::Number(text)) => Ok(PrefValue::from_number(text.as_str())),
        Ok(Token::Boolean(b)) => Ok(PrefValue::Bool(b)),
        Ok(Token::Null) => Ok(PrefValue::Null),
        Ok(found) => Err(mismatch_error(lexer, "preference value", &found)),
    }
}

fn parse_pref_type(name: &str) -> (out: Option<PrefType>)
    ensures
        out == pref_type_of(name@),
{
    if name.eq("user_pref") {
        Some(PrefType::User)
    } else if name.eq("pref") {
        Some(PrefType::Default)
    } else if name.eq("lock_pref") {
        Some(PrefType::Locked)
    } else if name.eq("sticky_pref") {
        Some(PrefType::Sticky)
    } else {
        None
    }
}

fn parse_entry(lexer: &mut Lexer, pref_type: PrefType) -> (out: Result<PrefEntry, Error>)
    requires
        old(lexer).wf(),
    ensures
        final(lexer).wf(),
        final(lexer).input() == old(lexer).input(),
        out is Err ==> is_parser_error(out->Err_0),
        match parse_arguments(old(lexer).input(), old(lexer).cursor(), pref_type) {
            Ok((entry, c)) => out is Ok && out->Ok_0@ == entry && final(lexer).cursor() == c,
            Err(e) => out is Err && out->Err_0@ == e,
        },
{
    match expect_mark(lexer, Mark::LeftParen, "'('") {
        Err(e) => {
            return Err(e);
        },
        Ok(_) => {},
    }
    let key = match parse_key(lexer) {
        Err(e) => {
            return Err(e);
        },
        Ok(key) => key,
    };
    match expect_mark(lexer, Mark::Comma, "','") {
        Err(e) => {
            return Err(e);
        },
        Ok(_) => {},
    }
    let value = match read_value(lexer) {
        Err(e) => {
            return Err(e);
        },
        Ok(value) => value,
    };
    match expect_mark(lexer, Mark::RightParen, "')'") {
        Err(e) => {
            return Err(e);
        },
        Ok(_) => {},
    }
    match expect_mark(lexer, Mark::Semicolon, "';'") {
        Err(e) => {
            return Err(e);
        },
        Ok(_) => {},
    }
    Ok(PrefEntry { key, value, pref_type, explanation: None, source: None, source_file: None })
}

fn parse_one(lexer: &mut Lexer, first: Token) -> (out: Result<PrefEntry, Error>)
    requires
        old(lexer).wf(),
    ensures
        final(lexer).wf(),
        final(lexer).input() == old(lexer).input(),
        out is Err ==> is_parser_error(out->Err_0),
        match parse_statement(old(lexer).input(), first@, old(lexer).cursor()) {
            Ok((entry, c)) => out is Ok && out->Ok_0@ == entry && final(lexer).cursor() == c,
            Err(e) => out is Err && out->Err_0@ == e,
        },
{
    match first {
        Token::Identifier(name) => match parse_pref_type(name.as_str()) {
            Some(pref_type) => parse_entry(lexer, pref_type),
            None => {
                let mut message = join2("Unknown preference function: '", name.as_str());
                message.append("'");
                Err(Error::Parser { line: lexer.line(), column: lexer.column(), message })
            },
        },
        found => Err(mismatch_error(lexer, "preference function", &found)),
    }
}

/// What reading the text `s` as one value gives; what follows the value is
/// not looked at.
pub open spec fn value_spec(s: Seq<char>) -> Result<PrefValueView, ErrorView> {
    if s.len() >= usize::MAX {
        Err(ErrorView::Parser { line: 1, column: 1, message: "Input is too long"@ })
    } else {
        match expect_value(s, Cursor::start()) {
            Ok((value, _)) => Ok(value),
            Err(e) => Err(e),
        }
    }
}

/// Reads a value as it stands in a preference statement: a string literal,
/// a number, `true`, `false` or `null`.
pub fn parse_value(text: &str) -> (out: Result<PrefValue, Error>)
    ensures
        match value_spec(text@) {
            Ok(value) => out is Ok && out->Ok_0@ == value,
            Err(e) => out is Err && out->Err_0@ == e,
        },
        out is Err ==> is_parser_error(out->Err_0),
{
    let chars = crate::text::chars_of(text);
    if chars.len() == usize::MAX {
        return Err(
            Error::Parser { line: 1, column: 1, message: String::from_str("Input is too long") },
        );
    }
    let mut lexer = Lexer::from_chars(chars);
    read_value(&mut lexer)
}

/// Whether the result `out` is the result `expected` that the model gives.
pub open spec fn entries_result(
    out: Result<Vec<PrefEntry>, Error>,
    expected: Result<Seq<PrefEntryView>, ErrorView>,
) -> bool {
    match expected {
        Ok(entries) => out is Ok && crate::types::entry_views(out->Ok_0@) == entries,
        Err(e) => out is Err && out->Err_0@ == e,
    }
}

/// Parses a preference file: one entry per statement, in the order of the
/// statements. The first statement that cannot be read fails the whole
/// file, with a parser error that names a line and a column counted from 1.
#[verifier::rlimit(50)]
pub fn parse_prefs_js(content: &str) -> (out: Result<Vec<PrefEntry>, Error>)
    ensures
        entries_result(out, parse_spec(content@)),
        out is Err ==> is_parser_error(out->Err_0),
{
    let chars = crate::text::chars_of(content);
    if chars.len() == usize::MAX {
        return Err(
            Error::Parser { line: 1, column: 1, message: String::from_str("Input is too long") },
        );
    }
    let mut lexer = Lexer::from_chars(chars);
    let mut entries: Vec<PrefEntry> = Vec::new();
    let ghost s = content@;
    assert(crate::types::entry_views(entries@) == Seq::<PrefEntryView>::empty());
    loop
        invariant
            lexer.wf(),
            lexer.input() == s,
            s == content@,
            s.len() < usize::MAX,
            lexer.cursor().pos <= s.len(),
            parse_spec(s) == prepend(
                crate::types::entry_views(entries@),
                parse_from(s, lexer.cursor()),
            ),
        decreases s.len() - lexer.cursor().pos,
    {
        let ghost before = lexer.cursor();
        let ghost views = crate::types::entry_views(entries@);
        proof {
            crate::lexer::next_token_advances(s, before);
        }
        let first = match lexer.next_token() {
            Err(e) => {
                return Err(lexer_error(e));
            },
            Ok(Token::Eof) => {
                assert(views + Seq::<PrefEntryView>::empty() == views);
                return Ok(entries);
            },
            Ok(first) => first,
        };
        let ghost behind = lexer.cursor();
        proof {
            if let TokenView::Identifier(name) = first@ {
                if let Some(pref_type) = pref_type_of(name) {
                    parse_arguments_advances(s, behind, pref_type);
                }
            }
        }
        match parse_one(&mut lexer, first) {
            Err(e) => {
                return Err(e);
            },
            Ok(entry) => {
                proof {
                    let rest = parse_from(s, lexer.cursor());
                    assert(crate::types::entry_views(entries@.push(entry)) == views.push(entry@));
                    if let Ok(more) = rest {
                        assert(views.push(entry@) + more == views + (seq![entry@] + more));
                    }
                }
                entries.push(entry);
            },
        }
    }
}

} // verus!
