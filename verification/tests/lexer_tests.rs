use ffcv::error::Error;
use ffcv::lexer::{Lexer, Token};

fn number(token: Token) -> f64 {
    match token {
        Token::Number(text) => text.parse().unwrap(),
        other => panic!("expected a number, got {:?}", other),
    }
}

fn lex_error(input: &str) -> (usize, usize, String) {
    let mut lexer = Lexer::new(input);
    loop {
        match lexer.next_token() {
            Ok(Token::Eof) => panic!("no error in {:?}", input),
            Ok(_) => {}
            Err(Error::Lexer { line, column, message }) => return (line, column, message),
            Err(other) => panic!("unexpected error {:?}", other),
        }
    }
}

#[test]
fn test_lexer_basic_tokens() {
    let input = "( ) , ;";
    let mut lexer = Lexer::new(input);

    assert_eq!(lexer.next_token().unwrap(), Token::LeftParen);
    assert_eq!(lexer.next_token().unwrap(), Token::RightParen);
    assert_eq!(lexer.next_token().unwrap(), Token::Comma);
    assert_eq!(lexer.next_token().unwrap(), Token::Semicolon);
    assert_eq!(lexer.next_token().unwrap(), Token::Eof);
}

#[test]
fn test_lexer_skip_whitespace() {
    let input = "   (  \t  )  ;";
    let mut lexer = Lexer::new(input);

    assert_eq!(lexer.next_token().unwrap(), Token::LeftParen);
    assert_eq!(lexer.next_token().unwrap(), Token::RightParen);
    assert_eq!(lexer.next_token().unwrap(), Token::Semicolon);
    assert_eq!(lexer.next_token().unwrap(), Token::Eof);
}

#[test]
fn test_lexer_single_line_comment() {
    let input = "( // this is a comment\n )";
    let mut lexer = Lexer::new(input);

    assert_eq!(lexer.next_token().unwrap(), Token::LeftParen);
    assert_eq!(lexer.next_token().unwrap(), Token::RightParen);
    assert_eq!(lexer.next_token().unwrap(), Token::Eof);
}

#[test]
fn test_lexer_multiline_comment() {
    let input = "( /* this is a\nmultiline comment */ )";
    let mut lexer = Lexer::new(input);

    assert_eq!(lexer.next_token().unwrap(), Token::LeftParen);
    assert_eq!(lexer.next_token().unwrap(), Token::RightParen);
    assert_eq!(lexer.next_token().unwrap(), Token::Eof);
}

#[test]
fn test_lexer_identifier() {
    let input = "user_pref pref lock_pref sticky_pref";
    let mut lexer = Lexer::new(input);

    assert_eq!(
        lexer.next_token().unwrap(),
        Token::Identifier("user_pref".to_string())
    );
    assert_eq!(
        lexer.next_token().unwrap(),
        Token::Identifier("pref".to_string())
    );
    assert_eq!(
        lexer.next_token().unwrap(),
        Token::Identifier("lock_pref".to_string())
    );
    assert_eq!(
        lexer.next_token().unwrap(),
        Token::Identifier("sticky_pref".to_string())
    );
    assert_eq!(lexer.next_token().unwrap(), Token::Eof);
}

#[test]
fn test_lexer_boolean() {
    let input = "true false";
    let mut lexer = Lexer::new(input);

    assert_eq!(lexer.next_token().unwrap(), Token::Boolean(true));
    assert_eq!(lexer.next_token().unwrap(), Token::Boolean(false));
    assert_eq!(lexer.next_token().unwrap(), Token::Eof);
}

#[test]
fn test_lexer_null() {
    let input = "null";
    let mut lexer = Lexer::new(input);

    assert_eq!(lexer.next_token().unwrap(), Token::Null);
    assert_eq!(lexer.next_token().unwrap(), Token::Eof);
}

#[test]
fn test_lexer_string_basic() {
    let input = r#""hello world""#;
    let mut lexer = Lexer::new(input);

    assert_eq!(
        lexer.next_token().unwrap(),
        Token::String("hello world".to_string())
    );
    assert_eq!(lexer.next_token().unwrap(), Token::Eof);
}

#[test]
fn test_lexer_string_escaped_quotes() {
    let input = r#""value with \"quotes\"""#;
    let mut lexer = Lexer::new(input);

    assert_eq!(
        lexer.next_token().unwrap(),
        Token::String("value with \"quotes\"".to_string())
    );
    assert_eq!(lexer.next_token().unwrap(), Token::Eof);
}

#[test]
fn test_lexer_string_backslashes() {
    let input = r#""C:\\path\\to\\file""#;
    let mut lexer = Lexer::new(input);

    assert_eq!(
        lexer.next_token().unwrap(),
        Token::String("C:\\path\\to\\file".to_string())
    );
    assert_eq!(lexer.next_token().unwrap(), Token::Eof);
}

#[test]
fn test_lexer_string_unicode_escapes() {
    let input = r#""\u0041""#;
    let mut lexer = Lexer::new(input);

    assert_eq!(lexer.next_token().unwrap(), Token::String("A".to_string()));
    assert_eq!(lexer.next_token().unwrap(), Token::Eof);
}

#[test]
fn test_lexer_string_hex_escapes() {
    let input = r#""\x41""#;
    let mut lexer = Lexer::new(input);

    assert_eq!(lexer.next_token().unwrap(), Token::String("A".to_string()));
    assert_eq!(lexer.next_token().unwrap(), Token::Eof);
}

#[test]
fn test_lexer_string_newlines_tabs() {
    let input = r#""line1\nline2\ttab""#;
    let mut lexer = Lexer::new(input);

    assert_eq!(
        lexer.next_token().unwrap(),
        Token::String("line1\nline2\ttab".to_string())
    );
    assert_eq!(lexer.next_token().unwrap(), Token::Eof);
}

#[test]
fn test_lexer_string_backspace_escape() {
    let input = r#""test\bvalue""#;
    let mut lexer = Lexer::new(input);
    assert_eq!(
        lexer.next_token().unwrap(),
        Token::String("test\x08value".to_string())
    );
}

#[test]
fn test_lexer_string_form_feed_escape() {
    let input = r#""test\fvalue""#;
    let mut lexer = Lexer::new(input);
    assert_eq!(
        lexer.next_token().unwrap(),
        Token::String("test\x0cvalue".to_string())
    );
}

#[test]
fn test_lexer_string_null_escape() {
    let input = r#""test\0value""#;
    let mut lexer = Lexer::new(input);
    assert_eq!(
        lexer.next_token().unwrap(),
        Token::String("test\x00value".to_string())
    );
}

#[test]
fn test_lexer_string_null_escape_followed_by_digit() {
    let input = r#""test\01""#;
    let mut lexer = Lexer::new(input);
    assert_eq!(
        lexer.next_token().unwrap(),
        Token::String("test\x001".to_string())
    );
}

#[test]
fn test_lexer_string_octal_escape_rejected() {
    let input = r#""test\00""#;
    let mut lexer = Lexer::new(input);
    assert!(lexer.next_token().is_err());
}

#[test]
fn test_lexer_string_multiple_escapes_together() {
    let input = r#""\b\f\0""#;
    let mut lexer = Lexer::new(input);
    assert_eq!(
        lexer.next_token().unwrap(),
        Token::String("\x08\x0c\x00".to_string())
    );
}

#[test]
fn test_lexer_integer() {
    let input = "42";
    let mut lexer = Lexer::new(input);

    assert_eq!(number(lexer.next_token().unwrap()), 42.0);
    assert_eq!(lexer.next_token().unwrap(), Token::Eof);
}

#[test]
fn test_lexer_negative_integer() {
    let input = "-42";
    let mut lexer = Lexer::new(input);

    assert_eq!(number(lexer.next_token().unwrap()), -42.0);
    assert_eq!(lexer.next_token().unwrap(), Token::Eof);
}

#[test]
fn test_lexer_float() {
    let input = "2.5";
    let mut lexer = Lexer::new(input);

    assert_eq!(number(lexer.next_token().unwrap()), 2.5);
    assert_eq!(lexer.next_token().unwrap(), Token::Eof);
}

#[test]
fn test_lexer_scientific_notation() {
    let input = "1.5e10";
    let mut lexer = Lexer::new(input);

    assert_eq!(number(lexer.next_token().unwrap()), 1.5e10);
    assert_eq!(lexer.next_token().unwrap(), Token::Eof);
}

#[test]
fn test_lexer_scientific_notation_negative() {
    let input = "3e-8";
    let mut lexer = Lexer::new(input);

    assert_eq!(number(lexer.next_token().unwrap()), 3e-8);
    assert_eq!(lexer.next_token().unwrap(), Token::Eof);
}

#[test]
fn test_lexer_complex_tokens() {
    let input = r#"user_pref("key", value);"#;
    let mut lexer = Lexer::new(input);

    assert_eq!(
        lexer.next_token().unwrap(),
        Token::Identifier("user_pref".to_string())
    );
    assert_eq!(lexer.next_token().unwrap(), Token::LeftParen);
    assert_eq!(
        lexer.next_token().unwrap(),
        Token::String("key".to_string())
    );
    assert_eq!(lexer.next_token().unwrap(), Token::Comma);
    assert_eq!(
        lexer.next_token().unwrap(),
        Token::Identifier("value".to_string())
    );
    assert_eq!(lexer.next_token().unwrap(), Token::RightParen);
    assert_eq!(lexer.next_token().unwrap(), Token::Semicolon);
    assert_eq!(lexer.next_token().unwrap(), Token::Eof);
}

#[test]
fn lexer_keeps_number_text_with_lower_case_exponent() {
    let mut lexer = Lexer::new("1.5E+10 -0.25");
    assert_eq!(
        lexer.next_token().unwrap(),
        Token::Number("1.5e+10".to_string())
    );
    assert_eq!(
        lexer.next_token().unwrap(),
        Token::Number("-0.25".to_string())
    );
    assert_eq!(lexer.next_token().unwrap(), Token::Eof);
}

#[test]
fn lexer_reports_unexpected_character_where_it_stands() {
    let (line, column, message) = lex_error("(\n  @");
    assert_eq!((line, column), (2, 3));
    assert_eq!(message, "Unexpected character: '@'");
}

#[test]
fn lexer_rejects_a_lone_slash() {
    let (line, column, message) = lex_error("( / )");
    assert_eq!((line, column), (1, 3));
    assert_eq!(message, "Unexpected character: '/'");
}

#[test]
fn lexer_counts_lines_inside_comments_and_strings() {
    let (line, column, _) = lex_error("/* a\nb */ \"x\ny\" $");
    assert_eq!((line, column), (3, 4));
}

#[test]
fn lexer_ends_quietly_in_an_unclosed_block_comment() {
    let mut lexer = Lexer::new("( /* never closed\n\n");
    assert_eq!(lexer.next_token().unwrap(), Token::LeftParen);
    assert_eq!(lexer.next_token().unwrap(), Token::Eof);
    assert_eq!(lexer.next_token().unwrap(), Token::Eof);
    assert_eq!((lexer.line(), lexer.column()), (1, 5));
}

#[test]
fn lexer_reports_unterminated_string_at_opening_quote() {
    let (line, column, message) = lex_error("  \"abc\ndef");
    assert_eq!((line, column), (2, 3));
    assert_eq!(message, "Unterminated string literal");
}

#[test]
fn lexer_reports_octal_escape() {
    let (line, column, message) = lex_error(r#""a\00""#);
    assert_eq!((line, column), (1, 4));
    assert_eq!(
        message,
        "Octal escape sequences are not supported. Use \\x00 instead."
    );
}

#[test]
fn lexer_reports_incomplete_escapes() {
    let (_, column, message) = lex_error(r#""\x4""#);
    assert_eq!(message, "Incomplete hex escape: \\x4");
    assert_eq!(column, 5);
    let (_, _, message) = lex_error(r#""\xg1""#);
    assert_eq!(message, "Incomplete hex escape: \\x");
    let (_, _, message) = lex_error(r#""\u12""#);
    assert_eq!(message, "Incomplete unicode escape: \\u12");
    let (_, _, message) = lex_error(r#""\q""#);
    assert_eq!(message, "Invalid escape sequence: \\q");
    let (_, _, message) = lex_error("\"\\");
    assert_eq!(message, "Unexpected end of input in escape sequence");
}

#[test]
fn lexer_replaces_surrogates_and_decodes_other_escapes() {
    let mut lexer = Lexer::new(r#""\uD800\u00e9\'\r\xFf""#);
    assert_eq!(
        lexer.next_token().unwrap(),
        Token::String("\u{FFFD}\u{e9}'\r\u{ff}".to_string())
    );
}

#[test]
fn lexer_reports_missing_exponent_digits_and_empty_numbers() {
    let (_, column, message) = lex_error("12e+");
    assert_eq!(message, "Missing exponent digits in scientific notation");
    assert_eq!(column, 5);
    let (_, column, message) = lex_error(" -");
    assert_eq!(message, "Failed to parse number: -");
    assert_eq!(column, 2);
    let (_, _, message) = lex_error("-.e5");
    assert_eq!(message, "Failed to parse number: -.e5");
}

#[test]
fn lexer_identifiers_are_ascii_only() {
    let mut lexer = Lexer::new("a_1\u{e9}");
    assert_eq!(
        lexer.next_token().unwrap(),
        Token::Identifier("a_1".to_string())
    );
    assert!(lexer.next_token().is_err());
}
