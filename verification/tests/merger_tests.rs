use ffcv::error::Error;
use ffcv::pref_merger::{
    get_effective_pref, load_builtin_preferences, load_global_preferences,
    load_user_preferences, merge_all_preferences, resolve_install_path,
    BundleFile, MergeConfig, MergeSources,
};
use ffcv::types::{
    FirefoxInstallation, MergedPreferences, PrefEntry, PrefSource, PrefType, PrefValue,
};

fn sources(
    located: Result<Option<FirefoxInstallation>, Error>,
    bundle: Option<Result<Vec<BundleFile>, Error>>,
    greprefs: Option<&str>,
    prefs_js: Option<&str>,
) -> MergeSources {
    MergeSources {
        located,
        bundle,
        greprefs: greprefs.map(|t| Ok(t.to_string())),
        prefs_js: prefs_js.map(|t| Ok(t.to_string())),
    }
}

fn bundle(files: &[(&str, &str)]) -> Option<Result<Vec<BundleFile>, Error>> {
    Some(Ok(files
        .iter()
        .map(|(path, text)| BundleFile {
            path: path.to_string(),
            content: Ok(text.to_string()),
        })
        .collect()))
}

fn installation(path: &str) -> FirefoxInstallation {
    FirefoxInstallation {
        version: "128.0".to_string(),
        path: path.to_string(),
        has_greprefs: true,
        has_omni_ja: true,
    }
}

fn all_tiers() -> MergeConfig {
    MergeConfig::default()
}

#[test]
fn test_merge_config_default() {
    let config = MergeConfig::default();
    assert!(config.include_builtins);
    assert!(config.include_globals);
    assert!(config.include_user);
    assert!(config.continue_on_error);
}

#[test]
fn test_get_effective_pref() {
    let prefs = vec![PrefEntry {
        key: "test.pref".to_string(),
        value: PrefValue::Bool(true),
        pref_type: PrefType::User,
        explanation: None,
        source: Some(PrefSource::User),
        source_file: Some("prefs.js".to_string()),
    }];

    assert!(get_effective_pref(&prefs, "test.pref").is_some());
    assert!(get_effective_pref(&prefs, "nonexistent").is_none());
}

#[test]
fn test_load_user_preferences() {
    let content = r#"
            user_pref("test.pref", true);
            user_pref("another.pref", "value");
        "#;

    let mut warnings = Vec::new();
    let prefs = load_user_preferences(
        "/tmp/profile/prefs.js",
        Some(Ok(content.to_string())),
        &mut warnings,
    )
    .unwrap();

    assert_eq!(prefs.len(), 2);
    assert!(warnings.is_empty());
    assert_eq!(prefs[0].source, Some(PrefSource::User));
    assert_eq!(prefs[0].source_file, Some("prefs.js".to_string()));
}

#[test]
fn test_load_user_preferences_not_found() {
    let mut warnings = Vec::new();
    let result = load_user_preferences("/tmp/profile/nonexistent.js", None, &mut warnings);

    assert!(result.is_err());
    assert!(!warnings.is_empty());
    assert_eq!(
        result,
        Err(Error::PrefFileNotFound {
            file: "/tmp/profile/nonexistent.js".to_string()
        })
    );
    assert_eq!(
        warnings,
        vec!["prefs.js not found at /tmp/profile/nonexistent.js".to_string()]
    );
}

#[test]
fn test_new_types_compile() {
    let installation = FirefoxInstallation {
        version: "115.0".to_string(),
        path: "/usr/lib/firefox".to_string(),
        has_greprefs: true,
        has_omni_ja: true,
    };
    assert_eq!(installation.version, "115.0");

    let merged = MergedPreferences {
        entries: vec![],
        install_path: Some("/usr/lib/firefox".to_string()),
        profile_path: "/home/user/.mozilla/firefox/profile".to_string(),
        loaded_sources: vec![PrefSource::User, PrefSource::BuiltIn],
        warnings: vec![],
    };
    assert_eq!(merged.loaded_sources.len(), 2);
}

#[test]
fn test_merged_preferences_structure() {
    let merged = MergedPreferences {
        entries: vec![],
        install_path: Some("/usr/lib/firefox".to_string()),
        profile_path: "/home/user/.mozilla/firefox/profile".to_string(),
        loaded_sources: vec![
            PrefSource::BuiltIn,
            PrefSource::GlobalDefault,
            PrefSource::User,
        ],
        warnings: vec![],
    };

    assert_eq!(merged.loaded_sources.len(), 3);
    assert!(merged.install_path.is_some());
    assert!(merged.warnings.is_empty());
}

#[test]
fn user_tier_wins_over_global_and_builtin() {
    let merged = merge_all_preferences(
        "/profile",
        Some("/install"),
        &all_tiers(),
        sources(
            Ok(None),
            bundle(&[("defaults/pref/browser.js", "pref(\"k\", 1); pref(\"only.builtin\", 1);")]),
            Some("pref(\"k\", 2); pref(\"only.global\", true);"),
            Some("user_pref(\"k\", 3);"),
        ),
    )
    .unwrap();
    let entry = get_effective_pref(&merged.entries, "k").unwrap();
    assert_eq!(entry.value, PrefValue::Integer(3));
    assert_eq!(entry.source, Some(PrefSource::User));
    assert_eq!(entry.source_file, Some("prefs.js".to_string()));
    assert_eq!(entry.pref_type, PrefType::User);
    let keys: Vec<&str> = merged.entries.iter().map(|e| e.key.as_str()).collect();
    assert_eq!(keys, vec!["k", "only.builtin", "only.global"]);
    assert_eq!(
        merged.entries[1].source_file,
        Some("omni.ja:defaults/pref/browser.js".to_string())
    );
    assert_eq!(merged.entries[1].source, Some(PrefSource::BuiltIn));
    assert_eq!(merged.entries[2].source, Some(PrefSource::GlobalDefault));
    assert_eq!(merged.entries[2].source_file, Some("greprefs.js".to_string()));
    assert_eq!(
        merged.loaded_sources,
        vec![
            PrefSource::BuiltIn,
            PrefSource::GlobalDefault,
            PrefSource::User
        ]
    );
    assert_eq!(merged.warnings, Vec::<String>::new());
    assert_eq!(merged.install_path, Some("/install".to_string()));
    assert_eq!(merged.profile_path, "/profile");
}

#[test]
fn global_tier_wins_over_builtin_and_later_entry_over_earlier() {
    let merged = merge_all_preferences(
        "/profile",
        Some("/install"),
        &all_tiers(),
        sources(
            Ok(None),
            bundle(&[("a.js", "pref(\"k\", 1);"), ("b.js", "pref(\"k\", 10); pref(\"z\", 1); pref(\"z\", 2);")]),
            Some("pref(\"q\", 5);"),
            Some(""),
        ),
    )
    .unwrap();
    assert_eq!(
        get_effective_pref(&merged.entries, "k").unwrap().value,
        PrefValue::Integer(10)
    );
    assert_eq!(
        get_effective_pref(&merged.entries, "z").unwrap().value,
        PrefValue::Integer(2)
    );
    assert_eq!(merged.entries.len(), 3);
}

#[test]
fn merged_entries_ascend_by_key() {
    let merged = merge_all_preferences(
        "/profile",
        None,
        &MergeConfig {
            include_builtins: false,
            include_globals: false,
            include_user: true,
            continue_on_error: false,
        },
        sources(
            Ok(None),
            None,
            None,
            Some("pref(\"b\", 1); pref(\"a.b\", 2); pref(\"a\", 3); pref(\"B\", 4); pref(\"\u{e9}\", 5); pref(\"ab\", 6); pref(\"a\", 7);"),
        ),
    )
    .unwrap();
    let keys: Vec<&str> = merged.entries.iter().map(|e| e.key.as_str()).collect();
    assert_eq!(keys, vec!["B", "a", "a.b", "ab", "b", "\u{e9}"]);
    let mut sorted = keys.clone();
    sorted.sort();
    assert_eq!(keys, sorted);
    assert_eq!(merged.entries[1].value, PrefValue::Integer(7));
    assert_eq!(merged.loaded_sources, vec![PrefSource::User]);
    assert_eq!(merged.install_path, None);
}

#[test]
fn tolerant_merge_goes_on_without_installation() {
    let merged = merge_all_preferences(
        "/profile",
        None,
        &all_tiers(),
        sources(Ok(None), None, None, Some("user_pref(\"a\", 1);")),
    )
    .unwrap();
    assert!(merged
        .warnings
        .contains(&"Firefox installation not found".to_string()));
    assert!(!merged.loaded_sources.contains(&PrefSource::BuiltIn));
    assert_eq!(merged.loaded_sources, vec![PrefSource::User]);
    assert_eq!(merged.entries.len(), 1);
    assert_eq!(merged.install_path, None);
}

#[test]
fn tolerant_merge_records_every_failed_tier() {
    let merged = merge_all_preferences(
        "/profile/",
        Some("/install"),
        &all_tiers(),
        sources(Ok(None), None, None, None),
    )
    .unwrap();
    assert_eq!(merged.entries.len(), 0);
    assert_eq!(merged.loaded_sources, Vec::<PrefSource>::new());
    assert_eq!(
        merged.warnings,
        vec![
            "omni.ja not found in Firefox installation".to_string(),
            "Failed to load built-in preferences: Preference file not found: omni.ja".to_string(),
            "greprefs.js not found in Firefox installation".to_string(),
            "Failed to load global preferences: Preference file not found: greprefs.js"
                .to_string(),
            "prefs.js not found at /profile/prefs.js".to_string(),
            "Failed to load user preferences: Preference file not found: /profile/prefs.js"
                .to_string(),
        ]
    );
}

#[test]
fn strict_merge_fails_at_the_first_failed_tier() {
    let strict = MergeConfig {
        continue_on_error: false,
        ..MergeConfig::default()
    };
    assert_eq!(
        merge_all_preferences("/p", Some("/i"), &strict, sources(Ok(None), None, None, None)),
        Err(Error::OmniJaError(
            "Failed to load built-in preferences: Preference file not found: omni.ja".to_string()
        ))
    );
    assert_eq!(
        merge_all_preferences(
            "/p",
            Some("/i"),
            &strict,
            sources(Ok(None), bundle(&[]), None, None)
        ),
        Err(Error::PrefFileNotFound {
            file: "greprefs.js".to_string()
        })
    );
    assert_eq!(
        merge_all_preferences(
            "/p",
            Some("/i"),
            &strict,
            sources(Ok(None), bundle(&[]), Some(""), None)
        ),
        Err(Error::PrefFileNotFound {
            file: "/p/prefs.js".to_string()
        })
    );
    assert_eq!(
        merge_all_preferences(
            "/p",
            Some("/i"),
            &strict,
            sources(Ok(None), bundle(&[]), Some(""), Some("pref(1);"))
        ),
        Err(Error::Parser {
            line: 1,
            column: 7,
            message: "Expected preference name string, found number 1".to_string()
        })
    );
}

#[test]
fn strict_merge_fails_where_no_installation_is_found() {
    let strict = MergeConfig {
        continue_on_error: false,
        ..MergeConfig::default()
    };
    assert_eq!(
        merge_all_preferences("/p", None, &strict, sources(Ok(None), None, None, Some(""))),
        Err(Error::OmniJaError(
            "Firefox installation not found".to_string()
        ))
    );
    let builtins_only = MergeConfig {
        include_globals: false,
        include_user: false,
        ..strict
    };
    assert_eq!(
        merge_all_preferences("/p", None, &builtins_only, sources(Ok(None), None, None, None)),
        Err(Error::OmniJaError(
            "Firefox installation not found".to_string()
        ))
    );
    assert_eq!(
        merge_all_preferences(
            "/p",
            None,
            &strict,
            sources(Err(Error::Io("denied".to_string())), None, None, Some(""))
        ),
        Err(Error::OmniJaError(
            "Failed to locate Firefox: I/O error: denied".to_string()
        ))
    );
    let globals_only = MergeConfig {
        include_builtins: false,
        ..strict
    };
    assert_eq!(
        merge_all_preferences("/p", None, &globals_only, sources(Ok(None), None, None, Some(""))),
        Err(Error::PrefFileNotFound {
            file: "greprefs.js".to_string()
        })
    );
    assert_eq!(
        merge_all_preferences(
            "/p",
            None,
            &globals_only,
            sources(Err(Error::Io("denied".to_string())), None, None, Some(""))
        ),
        Err(Error::PrefFileNotFound {
            file: "greprefs.js".to_string()
        })
    );
}

#[test]
fn strict_merge_goes_on_where_no_installation_is_needed_or_one_is_there() {
    let strict = MergeConfig {
        continue_on_error: false,
        ..MergeConfig::default()
    };
    let user_only = MergeConfig {
        include_builtins: false,
        include_globals: false,
        ..strict
    };
    let merged = merge_all_preferences(
        "/p",
        None,
        &user_only,
        sources(Ok(None), None, None, Some("pref(\"a\", 1);")),
    )
    .unwrap();
    assert_eq!(merged.warnings, Vec::<String>::new());
    assert_eq!(merged.loaded_sources, vec![PrefSource::User]);
    let merged = merge_all_preferences(
        "/p",
        None,
        &strict,
        sources(
            Ok(Some(installation("/found"))),
            bundle(&[]),
            Some(""),
            Some(""),
        ),
    )
    .unwrap();
    assert_eq!(merged.install_path, Some("/found".to_string()));
    let merged = merge_all_preferences(
        "/p",
        Some("/given"),
        &strict,
        sources(Ok(None), bundle(&[]), Some(""), Some("")),
    )
    .unwrap();
    assert_eq!(merged.install_path, Some("/given".to_string()));
    assert_eq!(merged.warnings, Vec::<String>::new());
}

#[test]
fn found_installation_counts_as_builtin_source_twice() {
    let merged = merge_all_preferences(
        "/p",
        None,
        &all_tiers(),
        sources(
            Ok(Some(installation("/found"))),
            bundle(&[("a.js", "pref(\"a\", 1);")]),
            Some("pref(\"b\", 1);"),
            Some("pref(\"c\", 1);"),
        ),
    )
    .unwrap();
    assert_eq!(
        merged.loaded_sources,
        vec![
            PrefSource::BuiltIn,
            PrefSource::BuiltIn,
            PrefSource::GlobalDefault,
            PrefSource::User
        ]
    );
    assert_eq!(merged.install_path, Some("/found".to_string()));
}

#[test]
fn failure_to_locate_is_a_warning() {
    let merged = merge_all_preferences(
        "/p",
        None,
        &all_tiers(),
        sources(
            Err(Error::Io("denied".to_string())),
            None,
            None,
            Some(""),
        ),
    )
    .unwrap();
    assert_eq!(
        merged.warnings,
        vec!["Failed to locate Firefox: I/O error: denied".to_string()]
    );
    assert_eq!(merged.install_path, None);
}

#[test]
fn install_path_is_resolved_as_the_merge_does() {
    let found = Ok(Some(installation("/found")));
    assert_eq!(
        resolve_install_path(Some("/given"), &all_tiers(), &found),
        Some("/given".to_string())
    );
    assert_eq!(
        resolve_install_path(None, &all_tiers(), &found),
        Some("/found".to_string())
    );
    let user_only = MergeConfig {
        include_builtins: false,
        include_globals: false,
        ..MergeConfig::default()
    };
    assert_eq!(resolve_install_path(None, &user_only, &found), None);
    assert_eq!(resolve_install_path(None, &all_tiers(), &Ok(None)), None);
}

#[test]
fn builtin_files_that_fail_become_warnings() {
    let mut warnings = vec!["earlier".to_string()];
    let files = vec![
        BundleFile {
            path: "a.js".to_string(),
            content: Ok("pref(\"a\", 1);".to_string()),
        },
        BundleFile {
            path: "bad.js".to_string(),
            content: Ok("pref(\"a\" 1);".to_string()),
        },
        BundleFile {
            path: "unread.js".to_string(),
            content: Err(Error::Io("not text".to_string())),
        },
        BundleFile {
            path: "b.js".to_string(),
            content: Ok("pref(\"b\", 2);".to_string()),
        },
    ];
    let prefs = load_builtin_preferences(Some(Ok(files)), &mut warnings).unwrap();
    let keys: Vec<&str> = prefs.iter().map(|e| e.key.as_str()).collect();
    assert_eq!(keys, vec!["a", "b"]);
    assert_eq!(prefs[1].source_file, Some("omni.ja:b.js".to_string()));
    assert_eq!(
        warnings,
        vec![
            "earlier".to_string(),
            "Failed to parse bad.js: Parser error at line 1, column 11: Expected ',', found number 1"
                .to_string(),
            "Failed to parse unread.js: I/O error: not text".to_string(),
        ]
    );
    let mut warnings = Vec::new();
    assert_eq!(
        load_builtin_preferences(
            Some(Err(Error::ExtractionFailed("broken".to_string()))),
            &mut warnings
        ),
        Err(Error::ExtractionFailed("broken".to_string()))
    );
    assert!(warnings.is_empty());
}

#[test]
fn global_defaults_are_stamped() {
    let mut warnings = Vec::new();
    let prefs =
        load_global_preferences(Some(Ok("pref(\"g\", null);".to_string())), &mut warnings).unwrap();
    assert_eq!(prefs[0].source, Some(PrefSource::GlobalDefault));
    assert_eq!(prefs[0].source_file, Some("greprefs.js".to_string()));
    assert_eq!(prefs[0].pref_type, PrefType::Default);
    assert_eq!(
        load_global_preferences(Some(Err(Error::Io("x".to_string()))), &mut warnings),
        Err(Error::Io("x".to_string()))
    );
    assert!(warnings.is_empty());
}

#[test]
fn error_messages_read_as_sentences() {
    assert_eq!(
        Error::Lexer {
            line: 12,
            column: 3,
            message: "m".to_string()
        }
        .message(),
        "Lexer error at line 12, column 3: m"
    );
    assert_eq!(
        Error::OmniJaTooLarge {
            actual: 104857601,
            limit: 0
        }
        .message(),
        "omni.ja file is too large (104857601 bytes). Maximum safe size is 0 bytes. You can increase this limit with --max-file-size if you're sure the file is valid."
    );
    assert_eq!(
        Error::ProfileNotFound {
            name: "n".to_string(),
            directory: "/d".to_string()
        }
        .message(),
        "Profile 'n' not found in /d"
    );
    assert_eq!(
        Error::FirefoxNotFound {
            searched_paths: "/a".to_string()
        }
        .message(),
        "Firefox installation not found. Searched paths: /a"
    );
    assert_eq!(Error::InvalidPreference("p".to_string()).message(), "Invalid preference: p");
    assert_eq!(
        Error::InvalidProfileDirectory("/d".to_string()).message(),
        "Invalid profile directory: /d"
    );
    assert_eq!(
        Error::InvalidGlobPattern("g".to_string()).message(),
        "Invalid glob pattern: g"
    );
    assert_eq!(
        Error::ProfilesIniParse("i".to_string()).message(),
        "Failed to parse profiles.ini: i"
    );
    assert_eq!(Error::OmniJaError("o".to_string()).message(), "omni.ja error: o");
    assert_eq!(
        Error::ExtractionFailed("e".to_string()).message(),
        "File extraction failed: e"
    );
}
