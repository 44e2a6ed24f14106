use ffcv::error::Error;
use ffcv::parser::{parse_prefs_js, parse_value};
use ffcv::types::{PrefEntry, PrefType, PrefValue};

fn float(value: &PrefValue) -> f64 {
    value.as_float_text().unwrap().parse().unwrap()
}

fn parser_error(input: &str) -> (usize, usize, String) {
    match parse_prefs_js(input) {
        Err(Error::Parser { line, column, message }) => (line, column, message),
        other => panic!("expected a parser error, got {:?}", other),
    }
}

#[test]
fn test_parse_prefs_js_string() {
    let input = r#"user_pref("browser.startup.homepage", "https://example.com");"#;
    let result = parse_prefs_js(input).unwrap();
    assert_eq!(result.len(), 1);
    assert_eq!(
        PrefEntry::find_by_key(&result, "browser.startup.homepage")
            .unwrap()
            .value,
        PrefValue::String("https://example.com".to_string())
    );
}

#[test]
fn test_parse_prefs_js_boolean() {
    let input = r#"user_pref("javascript.enabled", true);"#;
    let result = parse_prefs_js(input).unwrap();
    assert_eq!(result.len(), 1);
    assert_eq!(
        PrefEntry::find_by_key(&result, "javascript.enabled")
            .unwrap()
            .value,
        PrefValue::Bool(true)
    );
}

#[test]
fn test_parse_prefs_js_integer() {
    let input = r#"user_pref("network.cookie.cookieBehavior", 0);"#;
    let result = parse_prefs_js(input).unwrap();
    assert_eq!(result.len(), 1);
    assert_eq!(
        PrefEntry::find_by_key(&result, "network.cookie.cookieBehavior")
            .unwrap()
            .value,
        PrefValue::Integer(0)
    );
}

#[test]
fn test_parse_prefs_js_multiple() {
    let input = r#"
            user_pref("browser.startup.homepage", "https://example.com");
            user_pref("javascript.enabled", true);
            user_pref("network.cookie.cookieBehavior", 0);
        "#;
    let result = parse_prefs_js(input).unwrap();
    assert_eq!(result.len(), 3);
}

#[test]
fn test_parse_prefs_js_with_comments() {
    let input = r#"
            // This is a comment
            user_pref("browser.startup.homepage", "https://example.com");
            // Another comment
            user_pref("javascript.enabled", true);
        "#;
    let result = parse_prefs_js(input).unwrap();
    assert_eq!(result.len(), 2);
}

#[test]
fn test_parse_value_string_with_escaped_quotes() {
    let input = r#"user_pref("test", "value with \"quotes\"");"#;
    let result = parse_prefs_js(input).unwrap();
    assert_eq!(result.len(), 1);
    assert_eq!(
        PrefEntry::find_by_key(&result, "test").unwrap().value,
        PrefValue::String("value with \"quotes\"".to_string())
    );
}

#[test]
fn test_parse_value_float() {
    let result = parse_value("3.14").unwrap();
    assert!(result.as_float_text().is_some() || result.as_i64().is_some());
    assert_eq!(float(&result), 3.14);
}

#[test]
fn test_parse_value_null() {
    let result = parse_value("null").unwrap();
    assert_eq!(result, PrefValue::Null);
}

#[test]
fn test_parse_value_unknown() {
    // A bare word is no value: only strings, numbers, booleans and null are.
    let (_, _, message) = match parse_value("undefined") {
        Err(Error::Parser { line, column, message }) => (line, column, message),
        other => panic!("expected a parser error, got {:?}", other),
    };
    assert_eq!(
        message,
        "Expected preference value, found identifier 'undefined'"
    );
}

#[test]
fn test_parse_prefs_js_basic_api() {
    let content = r#"
        user_pref("browser.startup.homepage", "https://example.com");
        user_pref("javascript.enabled", true);
        user_pref("network.proxy.type", 1);
    "#;

    let prefs = parse_prefs_js(content).expect("Failed to parse preferences");

    assert_eq!(prefs.len(), 3);

    let homepage = prefs
        .iter()
        .find(|e| e.key == "browser.startup.homepage")
        .unwrap();
    assert_eq!(
        homepage.value,
        PrefValue::String("https://example.com".to_string())
    );
    assert_eq!(homepage.pref_type, PrefType::User);

    let js_enabled = prefs
        .iter()
        .find(|e| e.key == "javascript.enabled")
        .unwrap();
    assert_eq!(js_enabled.value, PrefValue::Bool(true));

    let proxy_type = prefs
        .iter()
        .find(|e| e.key == "network.proxy.type")
        .unwrap();
    assert_eq!(proxy_type.value, PrefValue::Integer(1));
}

#[test]
fn test_pref_value_convenience_methods() {
    let content = r#"
        user_pref("bool.pref", true);
        user_pref("int.pref", 42);
        user_pref("float.pref", 3.14);
        user_pref("string.pref", "hello");
    "#;

    let prefs = parse_prefs_js(content).expect("Failed to parse");
    assert_eq!(prefs.len(), 4);

    for pref in &prefs {
        match &pref.value {
            PrefValue::Bool(b) => {
                let extracted = pref.value.as_bool().unwrap();
                assert_eq!(extracted, *b);
            }
            PrefValue::Integer(i) => {
                let extracted = pref.value.as_i64().unwrap();
                assert_eq!(extracted, *i);
            }
            PrefValue::Float(_) => {
                let extracted = float(&pref.value);
                assert!((extracted - 3.14).abs() < 0.0001);
            }
            PrefValue::String(s) => {
                let extracted = pref.value.as_str().unwrap();
                assert_eq!(extracted, *s);
            }
            PrefValue::Null => {}
        }
    }
    assert_eq!(prefs[0].value, PrefValue::Bool(true));
    assert_eq!(prefs[1].value, PrefValue::Integer(42));
    assert_eq!(prefs[2].value, PrefValue::Float("3.14".to_string()));
    assert_eq!(prefs[3].value, PrefValue::String("hello".to_string()));
}

#[test]
fn test_pref_entry_find_by_key() {
    let content = r#"
        user_pref("test.pref", "value");
        user_pref("another.pref", 123);
    "#;

    let prefs = parse_prefs_js(content).expect("Failed to parse");

    let found = PrefEntry::find_by_key(&prefs, "test.pref");
    assert!(found.is_some());
    assert_eq!(found.unwrap().key, "test.pref");

    let not_found = PrefEntry::find_by_key(&prefs, "nonexistent");
    assert!(not_found.is_none());
}

#[test]
fn test_error_type_still_works() {
    let invalid = r#"user_pref("unclosed string)"#;

    match parse_prefs_js(invalid) {
        Err(Error::Parser {
            line,
            column,
            message,
        }) => {
            assert!(line > 0);
            assert!(column > 0);
            assert!(!message.is_empty());
        }
        _ => panic!("Expected parser error for unclosed string"),
    }
}

#[test]
fn test_debug_impl_still_works() {
    let content = r#"user_pref("test.pref", 42);"#;
    let prefs = parse_prefs_js(content).expect("Failed to parse");
    let pref = &prefs[0];

    let debug_str = format!("{:?}", pref);
    assert!(debug_str.contains("test.pref"));
}

#[test]
fn escapes_x41_and_u0041_both_decode_to_a() {
    let prefs = parse_prefs_js("pref(\"\\x41\", \"\\u0041\");").unwrap();
    assert_eq!(prefs[0].key, "A");
    assert_eq!(prefs[0].value, PrefValue::String("A".to_string()));
}

#[test]
fn octal_escape_is_rejected_and_null_before_digit_accepted() {
    let (line, column, message) = parser_error("pref(\"a\", \"\\00\");");
    assert_eq!((line, column), (1, 13));
    assert_eq!(
        message,
        "Octal escape sequences are not supported. Use \\x00 instead."
    );
    let prefs = parse_prefs_js("pref(\"a\", \"\\01\");").unwrap();
    assert_eq!(prefs[0].value, PrefValue::String("\u{0}1".to_string()));
}

#[test]
fn numbers_are_integers_exactly_when_whole_and_in_range() {
    assert_eq!(parse_value("3").unwrap(), PrefValue::Integer(3));
    assert_eq!(parse_value("3.0").unwrap(), PrefValue::Integer(3));
    assert_eq!(parse_value("3.14").unwrap(), PrefValue::Float("3.14".to_string()));
    assert_eq!(float(&parse_value("3.14").unwrap()), 3.14);
    assert_eq!(parse_value("-0").unwrap(), PrefValue::Integer(0));
    assert_eq!(parse_value("-17").unwrap(), PrefValue::Integer(-17));
    assert_eq!(parse_value("1e3").unwrap(), PrefValue::Integer(1000));
    assert_eq!(parse_value("1.5e1").unwrap(), PrefValue::Integer(15));
    assert_eq!(parse_value("1500e-2").unwrap(), PrefValue::Integer(15));
    assert_eq!(parse_value("15e-1").unwrap(), PrefValue::Float("15e-1".to_string()));
    assert_eq!(parse_value("0.000e-5").unwrap(), PrefValue::Integer(0));
    assert_eq!(parse_value(".5").is_err(), true);
    assert_eq!(parse_value("-.5").unwrap(), PrefValue::Float("-.5".to_string()));
    assert_eq!(parse_value("7.").unwrap(), PrefValue::Integer(7));
    assert_eq!(
        parse_value("9223372036854775807").unwrap(),
        PrefValue::Integer(i64::MAX)
    );
    assert_eq!(
        parse_value("-9223372036854775808").unwrap(),
        PrefValue::Integer(i64::MIN)
    );
    assert_eq!(
        parse_value("9223372036854775808").unwrap(),
        PrefValue::Float("9223372036854775808".to_string())
    );
    assert_eq!(
        parse_value("-9223372036854775809").unwrap(),
        PrefValue::Float("-9223372036854775809".to_string())
    );
    assert_eq!(
        parse_value("1e19").unwrap(),
        PrefValue::Float("1e19".to_string())
    );
    assert_eq!(
        parse_value("0e99999999999999999999999999999999999999").unwrap(),
        PrefValue::Integer(0)
    );
    assert_eq!(
        parse_value("1e99999999999999999999999999999999999999").unwrap(),
        PrefValue::Float("1e99999999999999999999999999999999999999".to_string())
    );
    assert_eq!(
        parse_value("1e-99999999999999999999999999999999999999").unwrap(),
        PrefValue::Float("1e-99999999999999999999999999999999999999".to_string())
    );
    assert_eq!(
        parse_value("000000000000000000000000000012").unwrap(),
        PrefValue::Integer(12)
    );
    assert_eq!(
        parse_value("0.00000000000000000000000000001e29").unwrap(),
        PrefValue::Integer(1)
    );
}

#[test]
fn unknown_function_is_rejected_by_name() {
    let (line, column, message) = parser_error("unknown_pref(\"k\",\"v\");");
    assert_eq!((line, column), (1, 13));
    assert_eq!(message, "Unknown preference function: 'unknown_pref'");
}

#[test]
fn four_statements_give_four_entries_in_order() {
    let input = "user_pref(\"browser.startup.homepage\",\"https://example.com\");\npref(\"javascript.enabled\", true);\nlock_pref(\"security.x\", false);\nsticky_pref(\"network.proxy.type\", 1);";
    let prefs = parse_prefs_js(input).unwrap();
    assert_eq!(prefs.len(), 4);
    let expected = [
        (
            "browser.startup.homepage",
            PrefType::User,
            PrefValue::String("https://example.com".to_string()),
        ),
        ("javascript.enabled", PrefType::Default, PrefValue::Bool(true)),
        ("security.x", PrefType::Locked, PrefValue::Bool(false)),
        ("network.proxy.type", PrefType::Sticky, PrefValue::Integer(1)),
    ];
    for (entry, (key, pref_type, value)) in prefs.iter().zip(expected.iter()) {
        assert_eq!(entry.key, *key);
        assert_eq!(entry.pref_type, *pref_type);
        assert_eq!(entry.value, *value);
        assert_eq!(entry.explanation, None);
        assert_eq!(entry.source, None);
        assert_eq!(entry.source_file, None);
    }
}

#[test]
fn duplicate_keys_in_one_file_are_both_kept() {
    let prefs = parse_prefs_js("pref(\"a\", 1); pref(\"a\", 2);").unwrap();
    assert_eq!(prefs.len(), 2);
    assert_eq!(prefs[0].value, PrefValue::Integer(1));
    assert_eq!(prefs[1].value, PrefValue::Integer(2));
}

#[test]
fn grammar_errors_name_what_was_expected_and_found() {
    let (_, _, message) = parser_error("pref \"a\"");
    assert_eq!(message, "Expected '(', found string \"a\"");
    let (_, _, message) = parser_error("pref(1");
    assert_eq!(message, "Expected preference name string, found number 1");
    let (_, _, message) = parser_error("pref(\"a\" true");
    assert_eq!(message, "Expected ',', found 'true'");
    let (_, _, message) = parser_error("pref(\"a\", )");
    assert_eq!(message, "Expected preference value, found ')'");
    let (_, _, message) = parser_error("pref(\"a\", null;");
    assert_eq!(message, "Expected ')', found ';'");
    let (line, column, message) = parser_error("pref(\"a\", null)\n");
    assert_eq!(message, "Expected ';', found end of input");
    assert_eq!((line, column), (2, 1));
    let (_, _, message) = parser_error("(");
    assert_eq!(message, "Expected preference function, found '('");
    let (_, _, message) = parser_error("true");
    assert_eq!(message, "Expected preference function, found 'true'");
}

#[test]
fn comments_may_stand_inside_argument_lists() {
    let prefs =
        parse_prefs_js("pref( /* key */ \"a\" , // value\n null /* end */ ) ;").unwrap();
    assert_eq!(prefs.len(), 1);
    assert_eq!(prefs[0].value, PrefValue::Null);
}

#[test]
fn empty_input_gives_no_entries() {
    assert_eq!(parse_prefs_js("").unwrap().len(), 0);
    assert_eq!(parse_prefs_js("  // nothing\n").unwrap().len(), 0);
}
