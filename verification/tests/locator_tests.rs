use ffcv::error::Error;
use ffcv::firefox_locator::{
    extract_version_from_ini, find_all_firefox_installations, find_firefox_installation,
    get_all_search_paths, get_firefox_version, validate_installation, Candidate, InstallProbe,
    Platform,
};
use ffcv::types::FirefoxInstallation;

fn probe(exists: bool, omni_ja: bool, greprefs: bool, version: Option<&str>) -> InstallProbe {
    InstallProbe {
        exists,
        browser_omni_ja: false,
        omni_ja,
        greprefs,
        browser_greprefs: false,
        application_ini: version.map(|v| format!("[App]\nVersion={}\nName=Firefox\n", v)),
        platform_ini: None,
    }
}

#[test]
fn test_get_all_search_paths_not_empty() {
    let paths = get_all_search_paths(Platform::Linux, &vec![]);
    assert!(!paths.is_empty());
}

#[test]
fn test_validate_nonexistent_path() {
    let result = validate_installation(
        "/nonexistent/firefox/path/xyz123",
        &probe(false, false, false, None),
    );
    assert!(result.is_err());
    assert_eq!(
        result,
        Err(Error::FirefoxNotFound {
            searched_paths: "/nonexistent/firefox/path/xyz123".to_string()
        })
    );
}

#[test]
fn test_firefox_search_paths_include_standard_locations() {
    let paths = get_all_search_paths(Platform::Linux, &vec![]);
    assert!(paths.iter().any(|p| p.contains("firefox")));
}

#[test]
fn test_extract_version_from_ini_content() {
    let ini_content = r#"
[App]
Version=128.0
Name=Firefox
"#;
    assert!(ini_content.contains("Version=128.0"));
    assert_eq!(
        extract_version_from_ini("/usr/lib/firefox/application.ini", ini_content),
        Ok("128.0".to_string())
    );
}

#[test]
fn version_is_read_from_the_first_version_line() {
    assert_eq!(
        extract_version_from_ini("x.ini", "  Version = 1.2.3  \r\nVersion=9\n"),
        Ok("1.2.3".to_string())
    );
    assert_eq!(
        extract_version_from_ini("x.ini", "Version=1=2"),
        Ok("1".to_string())
    );
    assert_eq!(
        extract_version_from_ini("x.ini", "Version="),
        Ok("".to_string())
    );
    assert_eq!(
        extract_version_from_ini("x.ini", "version=1\nVersion  =2\nMyVersion=3\n"),
        Err(Error::FirefoxNotFound {
            searched_paths: "x.ini (no version found)".to_string()
        })
    );
}

#[test]
fn version_comes_from_application_ini_first() {
    assert_eq!(
        get_firefox_version("/ff", Some("Version=1"), Some("Version=2")),
        Ok("1".to_string())
    );
    assert_eq!(
        get_firefox_version("/ff", None, Some("Version=2")),
        Ok("2".to_string())
    );
    assert_eq!(
        get_firefox_version("/ff", Some("nothing"), Some("Version=2")),
        Err(Error::FirefoxNotFound {
            searched_paths: "/ff/application.ini (no version found)".to_string()
        })
    );
    assert_eq!(
        get_firefox_version("/ff", None, None),
        Err(Error::FirefoxNotFound {
            searched_paths: "/ff (no version info found)".to_string()
        })
    );
}

#[test]
fn installation_needs_a_bundle_or_global_defaults() {
    assert_eq!(
        validate_installation("/ff", &probe(true, false, false, Some("1"))),
        Err(Error::FirefoxNotFound {
            searched_paths: "/ff (no omni.ja or greprefs.js found)".to_string()
        })
    );
    assert_eq!(
        validate_installation("/ff", &probe(true, true, false, Some("128.0"))),
        Ok(FirefoxInstallation {
            version: "128.0".to_string(),
            path: "/ff".to_string(),
            has_greprefs: false,
            has_omni_ja: true,
        })
    );
    assert_eq!(
        validate_installation("/ff", &probe(true, false, true, None)),
        Ok(FirefoxInstallation {
            version: "unknown".to_string(),
            path: "/ff".to_string(),
            has_greprefs: true,
            has_omni_ja: false,
        })
    );
}

#[test]
fn first_and_all_installations_follow_the_candidates() {
    let candidates = vec![
        Candidate {
            path: "/a".to_string(),
            probe: probe(false, true, true, None),
        },
        Candidate {
            path: "/b".to_string(),
            probe: probe(true, true, false, Some("1")),
        },
        Candidate {
            path: "/c".to_string(),
            probe: probe(true, false, false, None),
        },
        Candidate {
            path: "/d".to_string(),
            probe: probe(true, false, true, Some("2")),
        },
    ];
    let first = find_firefox_installation(&candidates).unwrap().unwrap();
    assert_eq!(first.path, "/b");
    let all = find_all_firefox_installations(&candidates).unwrap();
    let paths: Vec<&str> = all.iter().map(|i| i.path.as_str()).collect();
    assert_eq!(paths, vec!["/b", "/d"]);
    assert_eq!(find_firefox_installation(&vec![]), Ok(None));
    assert_eq!(find_all_firefox_installations(&vec![]), Ok(vec![]));
}

#[test]
fn search_paths_are_the_standard_ones_and_the_extra() {
    let paths = get_all_search_paths(Platform::Linux, &vec!["/nix/store/x".to_string()]);
    assert_eq!(
        paths,
        vec![
            "/usr/lib/firefox",
            "/usr/lib64/firefox",
            "/opt/firefox",
            "/usr/local/firefox",
            "/opt/firefox-beta",
            "/opt/firefox-esr",
            "/nix/store/x",
        ]
    );
    assert_eq!(get_all_search_paths(Platform::MacOs, &vec![]).len(), 4);
    assert_eq!(get_all_search_paths(Platform::Windows, &vec![]).len(), 9);
    assert_eq!(
        get_all_search_paths(Platform::Windows, &vec![])[0],
        "C:\\Program Files\\Mozilla Firefox"
    );
    assert!(get_all_search_paths(Platform::Other, &vec![]).is_empty());
}
