use ffcv::error::Error;
use ffcv::parser::parse_prefs_js;
use ffcv::query::{query_preferences, select_matching};
use ffcv::types::{PrefEntry, PrefType, PrefValue};

fn entry(key: &str, value: PrefValue) -> PrefEntry {
    PrefEntry {
        key: key.to_string(),
        value,
        pref_type: PrefType::User,
        explanation: None,
        source: None,
        source_file: None,
    }
}

fn create_test_config() -> Vec<PrefEntry> {
    vec![
        entry("network.proxy.type", PrefValue::Integer(1)),
        entry("network.cookie.cookieBehavior", PrefValue::Integer(0)),
        entry(
            "browser.startup.homepage",
            PrefValue::String("https://example.com".to_string()),
        ),
        entry("browser.search.region", PrefValue::String("US".to_string())),
        entry("javascript.enabled", PrefValue::Bool(true)),
    ]
}

fn contains_key(entries: &[PrefEntry], key: &str) -> bool {
    entries.iter().any(|e| e.key == key)
}

#[test]
fn test_query_single_pattern() {
    let config = create_test_config();
    let queried = query_preferences(&config, &["network.*"]).unwrap();
    assert_eq!(queried.len(), 2);
    assert!(contains_key(&queried, "network.proxy.type"));
    assert!(contains_key(&queried, "network.cookie.cookieBehavior"));
}

#[test]
fn test_query_multiple_patterns_or_logic() {
    let config = create_test_config();
    let queried = query_preferences(&config, &["network.*", "javascript.enabled"]).unwrap();
    assert_eq!(queried.len(), 3);
    assert!(contains_key(&queried, "network.proxy.type"));
    assert!(contains_key(&queried, "network.cookie.cookieBehavior"));
    assert!(contains_key(&queried, "javascript.enabled"));
}

#[test]
fn test_query_no_matches() {
    let config = create_test_config();
    let queried = query_preferences(&config, &["nonexistent.*"]).unwrap();
    assert_eq!(queried.len(), 0);
    assert!(queried.is_empty());
}

#[test]
fn test_query_invalid_pattern() {
    let config = create_test_config();
    let result = query_preferences(&config, &["[invalid"]);
    assert!(result.is_err());
}

#[test]
fn test_query_exact_match() {
    let config = create_test_config();
    let queried = query_preferences(&config, &["javascript.enabled"]).unwrap();
    assert_eq!(queried.len(), 1);
    assert!(contains_key(&queried, "javascript.enabled"));
}

#[test]
fn test_query_preferences_basic_api() {
    let content = r#"
        user_pref("network.proxy.http", "proxy.example.com");
        user_pref("network.proxy.http_port", 8080);
        user_pref("network.proxy.type", 1);
        user_pref("browser.startup.homepage", "https://example.com");
    "#;

    let prefs = parse_prefs_js(content).expect("Failed to parse");

    let network_prefs = query_preferences(&prefs, &["network.*"]).expect("Failed to query");

    assert_eq!(network_prefs.len(), 3);
    assert!(network_prefs.iter().all(|p| p.key.starts_with("network.")));
}

#[test]
fn test_query_multiple_patterns() {
    let content = r#"
        user_pref("network.proxy.type", 1);
        user_pref("browser.startup.page", 3);
        user_pref("extensions.enabled", true);
    "#;

    let prefs = parse_prefs_js(content).expect("Failed to parse");

    let results = query_preferences(&prefs, &["network.*", "browser.*"]).expect("Failed to query");

    assert_eq!(results.len(), 2);
}

#[test]
fn query_keeps_the_order_and_the_entries_whole() {
    let config = create_test_config();
    let queried = query_preferences(&config, &["*.s*", "network.proxy.type"]).unwrap();
    assert_eq!(
        queried,
        vec![
            entry("network.proxy.type", PrefValue::Integer(1)),
            entry(
                "browser.startup.homepage",
                PrefValue::String("https://example.com".to_string()),
            ),
            entry("browser.search.region", PrefValue::String("US".to_string())),
        ]
    );
    assert_eq!(query_preferences(&config, &[]).unwrap(), vec![]);
    assert_eq!(query_preferences(&config, &["*"]).unwrap(), config);
}

#[test]
fn query_names_the_first_invalid_pattern() {
    let config = create_test_config();
    match query_preferences(&config, &["network.*", "[invalid", "a**b"]) {
        Err(Error::InvalidGlobPattern(message)) => {
            assert!(message.starts_with("'[invalid': "), "{}", message);
            assert!(message.len() > "'[invalid': ".len());
        }
        other => panic!("expected an invalid pattern, got {:?}", other),
    }
    match query_preferences(&Vec::new(), &["a**b"]) {
        Err(Error::InvalidGlobPattern(message)) => assert!(message.starts_with("'a**b': ")),
        other => panic!("expected an invalid pattern, got {:?}", other),
    }
}

#[test]
fn compiled_patterns_select_by_key() {
    let config = create_test_config();
    let compiled = vec![
        glob::Pattern::new("*.enabled").unwrap(),
        glob::Pattern::new("browser.s?arch.*").unwrap(),
        glob::Pattern::new("[a-m]*.type").unwrap(),
    ];
    let keys: Vec<String> = select_matching(&config, &compiled)
        .into_iter()
        .map(|e| e.key)
        .collect();
    assert_eq!(keys, vec!["browser.search.region", "javascript.enabled"]);
    assert_eq!(select_matching(&config, &Vec::new()), vec![]);
}

#[test]
fn query_error_says_what_the_compiler_has_against_the_pattern() {
    for bad in ["[invalid", "a**b", "***"] {
        let reason = glob::Pattern::new(bad).unwrap_err().to_string();
        assert_eq!(
            query_preferences(&create_test_config(), &["network.*", bad, "[also"]),
            Err(Error::InvalidGlobPattern(format!("'{}': {}", bad, reason)))
        );
    }
    assert_eq!(
        query_preferences(&Vec::new(), &["[invalid"]),
        Err(Error::InvalidGlobPattern(
            "'[invalid': Pattern syntax error near position 0: invalid range pattern".to_string()
        ))
    );
}
