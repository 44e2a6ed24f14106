use ffcv::cli::{Cli, Commands};
use ffcv::commands::{config_entries, output_raw_value, view_config, ConfigEntry, ViewOutput};
use ffcv::error::Error;
use ffcv::explanations::{
    get_preference_explanation, get_preference_explanation_static, PREF_EXPLANATIONS,
};
use ffcv::parser::parse_prefs_js;
use ffcv::types::{PrefEntry, PrefValue};

fn prefs() -> Vec<PrefEntry> {
    parse_prefs_js(
        "user_pref(\"network.proxy.type\", 1);\nuser_pref(\"browser.home\", \"https://a.b\");\nuser_pref(\"ratio\", 0.5);\nuser_pref(\"on\", true);\nuser_pref(\"none\", null);\nuser_pref(\"on\", false);",
    )
    .unwrap()
}

#[test]
fn raw_values_are_shown_without_wrapping() {
    assert_eq!(output_raw_value(&PrefValue::String("a \"b\"".to_string())), "a \"b\"");
    assert_eq!(output_raw_value(&PrefValue::Bool(true)), "true");
    assert_eq!(output_raw_value(&PrefValue::Integer(-7)), "-7");
    assert_eq!(output_raw_value(&PrefValue::Float("0.5".to_string())), "0.5");
    assert_eq!(output_raw_value(&PrefValue::Null), "null");
}

#[test]
fn view_gets_one_value_or_fails() {
    assert_eq!(
        view_config(prefs(), &[], Some("browser.home")),
        Ok(ViewOutput::Raw("https://a.b".to_string()))
    );
    assert_eq!(
        view_config(prefs(), &["network.*"], Some("on")),
        Ok(ViewOutput::Raw("true".to_string()))
    );
    assert_eq!(
        view_config(prefs(), &[], Some("missing")),
        Err(Error::InvalidPreference(
            "Preference 'missing' not found".to_string()
        ))
    );
}

#[test]
fn view_shows_all_or_the_selected() {
    assert_eq!(view_config(prefs(), &[], None), Ok(ViewOutput::Entries(prefs())));
    match view_config(prefs(), &["n*"], None).unwrap() {
        ViewOutput::Entries(entries) => {
            let keys: Vec<&str> = entries.iter().map(|e| e.key.as_str()).collect();
            assert_eq!(keys, vec!["network.proxy.type", "none"]);
        }
        other => panic!("expected entries, got {:?}", other),
    }
    assert!(matches!(
        view_config(prefs(), &["[x"], None),
        Err(Error::InvalidGlobPattern(_))
    ));
}

#[test]
fn entries_are_listed_by_key_and_value() {
    let listed = config_entries(&prefs());
    assert_eq!(listed.len(), 6);
    assert_eq!(
        listed[0],
        ConfigEntry {
            key: "network.proxy.type".to_string(),
            value: PrefValue::Integer(1)
        }
    );
    assert_eq!(
        listed[2],
        ConfigEntry {
            key: "ratio".to_string(),
            value: PrefValue::Float("0.5".to_string())
        }
    );
    assert_eq!(config_entries(&Vec::new()), Vec::<ConfigEntry>::new());
}

#[test]
fn query_and_get_exclude_each_other() {
    let config = |query: &[&str], get: Option<&str>| Cli {
        command: Commands::Config {
            profile: "default".to_string(),
            query: query.iter().map(|q| q.to_string()).collect(),
            get: get.map(|g| g.to_string()),
        },
    };
    assert!(config(&[], None).command.consistent());
    assert!(config(&["a"], None).command.consistent());
    assert!(config(&[], Some("k")).command.consistent());
    assert!(!config(&["a"], Some("k")).command.consistent());
    assert!(Commands::Profile.consistent());
}

#[test]
fn documented_preferences_are_explained() {
    assert_eq!(
        get_preference_explanation_static("javascript.enabled"),
        Some(
            "Master switch to enable or disable JavaScript execution in Firefox. When set to true, JavaScript can run in web pages. When false, JavaScript is completely disabled, which may break many modern websites that rely on JavaScript for functionality."
        )
    );
    assert_eq!(
        get_preference_explanation("services.settings.blocklists.gfx.last_check"),
        Some(
            "Timestamp for the last update of the graphics driver blocklist. This collection contains graphics drivers and hardware configurations known to cause stability or security issues. Firefox blocks or restricts certain GPU features (like hardware acceleration or WebGL) on these problematic configurations to prevent crashes and vulnerabilities.".to_string()
        )
    );
    assert_eq!(get_preference_explanation_static("no.such.preference"), None);
    assert_eq!(get_preference_explanation_static(""), None);
    assert_eq!(get_preference_explanation_static("JavaScript.enabled"), None);
    assert_eq!(PREF_EXPLANATIONS.len(), 215);
    let mut keys: Vec<&str> = PREF_EXPLANATIONS.iter().map(|(k, _)| *k).collect();
    keys.sort();
    keys.dedup();
    assert_eq!(keys.len(), 215);
    for (key, text) in PREF_EXPLANATIONS.iter() {
        assert_eq!(get_preference_explanation_static(key), Some(*text));
        assert!(!text.contains("  "), "{}", key);
        assert!(text.len() > 20, "{}", key);
    }
}
