use ffcv::omni_extractor::{ExtractConfig, OmniExtractor};
use ffcv::parser::parse_prefs_js;
use ffcv::pref_merger::parse_prefs_js_file;
use ffcv::query::query_preferences;
use ffcv::types::{PrefEntry, PrefSource};
use std::io::Write;

const PREFS_JS: &str = r#"// Mozilla User Preferences

// DO NOT EDIT THIS FILE.
//
// If you make changes to this file while the application is running,
// the changes will be overwritten when the application exits.

user_pref("app.update.lastUpdateTime.addon-background-update-timer", 1700000000);
user_pref("browser.startup.homepage", "https://example.com");
user_pref("browser.startup.page", 3);
user_pref("browser.search.region", "US");
user_pref("network.proxy.type", 1);
user_pref("network.proxy.http", "proxy.example.com");
user_pref("network.proxy.http_port", 8080);
user_pref("network.cookie.cookieBehavior", 0);
user_pref("javascript.enabled", true);
user_pref("privacy.trackingprotection.enabled", true);
"#;

const GREPREFS_JS: &str = r#"/* Global defaults. */
pref("keyword.enabled", true);
pref("general.useragent.compatMode.firefox", false);
pref("general.config.obscure_value", 13); // for MCD .cfg files
pref("network.proxy.type", 5);
sticky_pref("signon.rememberSignons", true);
"#;

const BROWSER_JS: &str = r#"// Default preferences of the browser.
pref("browser.startup.page", 1);
pref("browser.startup.homepage", "about:home");
pref("browser.startup.blankWindow", false);
lock_pref("browser.shell.checkDefaultBrowser", true);
"#;

const FIREFOX_JS: &str = "pref(\"app.update.auto\", true);\n";

fn omni_ja() -> Vec<u8> {
    let mut writer = zip::ZipWriter::new(std::io::Cursor::new(Vec::new()));
    for (name, text) in [
        ("chrome.manifest", "manifest chrome/chrome.manifest\n"),
        ("defaults/pref/browser.js", BROWSER_JS),
        ("defaults/pref/firefox.js", FIREFOX_JS),
        ("modules/AppConstants.js", "var x = 1;"),
    ] {
        writer
            .start_file(name, zip::write::FileOptions::default())
            .unwrap();
        writer.write_all(text.as_bytes()).unwrap();
    }
    writer.finish().unwrap().into_inner()
}

#[test]
fn test_parse_prefs_js_file_basic_api() {
    let prefs = parse_prefs_js_file(PREFS_JS, "prefs.js").expect("Failed to parse prefs.js");

    assert!(!prefs.is_empty());

    for pref in &prefs {
        assert!(pref.source.is_some(), "All prefs should have source info");
        assert!(
            pref.source_file.is_some(),
            "All prefs should have source file info"
        );
    }
}

#[test]
fn test_omni_extraction_from_fixture() {
    let archive = omni_ja();

    let config = ExtractConfig {
        max_omni_size: 10_000_000,
        cache_dir: None,
        target_files: vec!["defaults/pref/*.js".to_string()],
        force_refresh: false,
    };

    let extractor =
        OmniExtractor::with_config("omni-ja-esr115.ja".to_string(), Some(archive.len()), config)
            .expect("Failed to create extractor");

    let extracted_files = extractor
        .extract_prefs(archive)
        .expect("Failed to extract preferences");

    assert!(
        !extracted_files.is_empty(),
        "Should extract at least some files"
    );
    assert_eq!(extracted_files.len(), 2);

    let mut all_prefs: Vec<PrefEntry> = Vec::new();
    for file in extracted_files {
        let text = String::from_utf8(file.data).unwrap();
        let prefs = parse_prefs_js_file(&text, &file.name)
            .unwrap_or_else(|_| panic!("Failed to parse {:?}", file.name));
        all_prefs.extend(prefs);
    }

    assert!(
        !all_prefs.is_empty(),
        "Parsed preferences should not be empty"
    );

    let browser_startpage_exists = all_prefs.iter().any(|p| p.key.contains("startup"));
    assert!(
        browser_startpage_exists,
        "Should extract startup-related preferences from defaults/pref/browser.js"
    );
}

#[test]
fn test_preference_precedence() {
    let entries = parse_prefs_js_file(PREFS_JS, "prefs.js").expect("Failed to parse prefs.js");

    let network_proxy_type = query_preferences(&entries, &["network.proxy.type"])
        .expect("Failed to query network.proxy.type");

    assert_eq!(network_proxy_type.len(), 1);
    assert_eq!(network_proxy_type[0].key, "network.proxy.type");

    if let Some(value) = network_proxy_type[0].value.as_i64() {
        assert_eq!(value, 1);
    } else {
        panic!("network.proxy.type should be an integer");
    }

    assert_eq!(network_proxy_type[0].source, Some(PrefSource::User));
}

#[test]
fn test_fixture_files_are_valid() {
    let fixtures = vec![
        ("prefs.js", PREFS_JS),
        ("greprefs.js", GREPREFS_JS),
        ("browser.js", BROWSER_JS),
        ("firefox.js", FIREFOX_JS),
    ];

    for (name, text) in fixtures {
        let result = parse_prefs_js(text);
        assert!(result.is_ok(), "Should successfully parse {:?}", name);

        let entries = result.unwrap();
        assert!(!entries.is_empty(), "{:?} should contain preferences", name);
    }
}

#[test]
fn test_query_with_glob_patterns() {
    let entries = parse_prefs_js_file(PREFS_JS, "prefs.js").expect("Failed to parse prefs.js");

    let network_prefs =
        query_preferences(&entries, &["network.*"]).expect("Failed to query network.*");

    assert!(
        !network_prefs.is_empty(),
        "Should find network.* preferences"
    );

    for pref in &network_prefs {
        assert!(pref.key.starts_with("network."));
    }

    let browser_and_network = query_preferences(&entries, &["browser.*", "network.*"])
        .expect("Failed to query multiple patterns");

    assert!(!browser_and_network.is_empty());

    for pref in &browser_and_network {
        assert!(
            pref.key.starts_with("browser.") || pref.key.starts_with("network."),
            "All results should match one of the patterns"
        );
    }
    assert_eq!(network_prefs.len(), 4);
    assert_eq!(browser_and_network.len(), 7);
}

#[test]
fn test_backward_compatibility_existing_api() {
    let entries = parse_prefs_js_file(PREFS_JS, "prefs.js").expect("Failed to parse prefs.js");

    let results = query_preferences(&entries, &["browser.*"]).expect("Failed to query");

    assert!(!results.is_empty());

    for entry in &entries {
        let _ = entry.value.as_bool();
        let _ = entry.value.as_i64();
        let _ = entry.value.as_float_text();
        let _ = entry.value.as_str();
    }
}

#[test]
fn test_source_tracking_in_parsed_prefs() {
    let entries = parse_prefs_js_file(
        "user_pref(\"a\", 1);\nuser_pref(\"b\", \"two\");\n",
        "prefs.js",
    )
    .expect("Failed to parse prefs.js");

    assert_eq!(entries.len(), 2);
    for entry in &entries {
        assert_eq!(entry.source, Some(PrefSource::User));
        assert_eq!(entry.source_file, Some("prefs.js".to_string()));
    }
}

fn json_value(value: &ffcv::types::PrefValue) -> serde_json::Value {
    match value {
        ffcv::types::PrefValue::Bool(b) => serde_json::Value::Bool(*b),
        ffcv::types::PrefValue::Integer(i) => serde_json::Value::Number(serde_json::Number::from(*i)),
        ffcv::types::PrefValue::Float(text) => serde_json::Number::from_f64(text.parse().unwrap())
            .map(serde_json::Value::Number)
            .unwrap_or(serde_json::Value::Null),
        ffcv::types::PrefValue::String(s) => serde_json::Value::String(s.clone()),
        ffcv::types::PrefValue::Null => serde_json::Value::Null,
    }
}

fn json_entry(entry: &PrefEntry) -> serde_json::Value {
    let mut object = serde_json::Map::new();
    object.insert(
        "key".to_string(),
        serde_json::Value::String(entry.key.clone()),
    );
    object.insert("value".to_string(), json_value(&entry.value));
    object.insert(
        "pref_type".to_string(),
        serde_json::Value::String(entry.pref_type.function_name().to_string()),
    );
    if let Some(source) = entry.source {
        object.insert(
            "source".to_string(),
            serde_json::Value::String(source.name().to_string()),
        );
    }
    serde_json::Value::Object(object)
}

#[test]
fn test_json_serialization() {
    let content = r#"user_pref("test.pref", "value");"#;

    let prefs = parse_prefs_js(content).expect("Failed to parse");
    let pref = &prefs[0];

    let json_str = serde_json::to_string(&json_entry(pref)).expect("Failed to serialize to string");

    assert!(json_str.contains("test.pref"));
    assert!(json_str.contains("value"));

    let _parsed: serde_json::Value =
        serde_json::from_str(&json_str).expect("Failed to parse serialized JSON");
    assert_eq!(
        json_str,
        "{\"key\":\"test.pref\",\"pref_type\":\"user_pref\",\"value\":\"value\"}"
    );
}
