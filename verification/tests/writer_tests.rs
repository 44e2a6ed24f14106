use ffcv::parser::parse_prefs_js;
use ffcv::types::{PrefEntry, PrefSource, PrefType, PrefValue};
use ffcv::writer::{quote, render_prefs};

fn entry(pref_type: PrefType, key: &str, value: PrefValue) -> PrefEntry {
    PrefEntry {
        key: key.to_string(),
        value,
        pref_type,
        explanation: None,
        source: None,
        source_file: None,
    }
}

#[test]
fn test_display_impl_still_works() {
    let content = r#"user_pref("test.pref", true);"#;
    let prefs = parse_prefs_js(content).expect("Failed to parse");
    let pref = &prefs[0];

    let display_str = pref.render();
    assert!(display_str.contains("test.pref"));
    assert!(display_str.contains("true"));
    assert_eq!(display_str, "user_pref(\"test.pref\", true);");
}

#[test]
fn test_pref_source_enum() {
    let _builtin = PrefSource::BuiltIn;
    let _global = PrefSource::GlobalDefault;
    let user = PrefSource::User;
    let _policy = PrefSource::SystemPolicy;

    assert_eq!(user, PrefSource::User);
    assert_ne!(user, PrefSource::BuiltIn);

    let json = serde_json::to_string(user.name()).expect("Failed to serialize");
    assert_eq!(json, "\"user\"");
    assert_eq!(PrefSource::BuiltIn.name(), "built-in");
    assert_eq!(PrefSource::GlobalDefault.name(), "global-default");
    assert_eq!(PrefSource::SystemPolicy.name(), "system-policy");
    assert!(PrefSource::BuiltIn.precedence() < PrefSource::GlobalDefault.precedence());
    assert!(PrefSource::GlobalDefault.precedence() < PrefSource::User.precedence());
}

#[test]
fn strings_are_quoted_with_escapes() {
    assert_eq!(quote("plain"), "\"plain\"");
    assert_eq!(quote("a\"b\\c"), "\"a\\\"b\\\\c\"");
    assert_eq!(quote(""), "\"\"");
    assert_eq!(quote("line\nbreak"), "\"line\nbreak\"");
}

#[test]
fn values_are_written_as_they_are_read() {
    assert_eq!(PrefValue::Bool(false).render(), "false");
    assert_eq!(PrefValue::Null.render(), "null");
    assert_eq!(PrefValue::Integer(0).render(), "0");
    assert_eq!(PrefValue::Integer(-42).render(), "-42");
    assert_eq!(PrefValue::Integer(i64::MIN).render(), "-9223372036854775808");
    assert_eq!(PrefValue::Integer(i64::MAX).render(), "9223372036854775807");
    assert_eq!(PrefValue::Float("2.5e-3".to_string()).render(), "2.5e-3");
    assert_eq!(PrefValue::String("x".to_string()).render(), "\"x\"");
    assert_eq!(PrefType::Locked.function_name(), "lock_pref");
}

#[test]
fn written_statements_parse_back_to_the_same_entries() {
    let entries = vec![
        entry(
            PrefType::User,
            "browser.startup.homepage",
            PrefValue::String("https://example.com/?q=\"a\\b\"".to_string()),
        ),
        entry(PrefType::Default, "javascript.enabled", PrefValue::Bool(true)),
        entry(PrefType::Locked, "security.x", PrefValue::Bool(false)),
        entry(PrefType::Sticky, "network.proxy.type", PrefValue::Integer(1)),
        entry(PrefType::User, "smallest", PrefValue::Integer(i64::MIN)),
        entry(PrefType::User, "largest", PrefValue::Integer(i64::MAX)),
        entry(PrefType::User, "ratio", PrefValue::Float("-0.125".to_string())),
        entry(PrefType::User, "huge", PrefValue::Float("1e400".to_string())),
        entry(PrefType::Default, "nothing", PrefValue::Null),
        entry(
            PrefType::User,
            "odd \u{e9}\n\t/* key */",
            PrefValue::String("// no comment\u{0}".to_string()),
        ),
        entry(PrefType::User, "", PrefValue::String(String::new())),
        entry(PrefType::User, "nothing", PrefValue::Integer(0)),
    ];
    let text = render_prefs(&entries);
    assert!(text.starts_with(
        "user_pref(\"browser.startup.homepage\", \"https://example.com/?q=\\\"a\\\\b\\\"\");\npref(\"javascript.enabled\", true);\n"
    ));
    assert_eq!(parse_prefs_js(&text).unwrap(), entries);
    assert_eq!(render_prefs(&Vec::new()), "");
}
