use ffcv::error::Error;
use ffcv::firefox_locator::Platform;
use ffcv::profile::{
    find_profile_path, get_prefs_path, get_profiles_directory, installs_in, list_profiles,
    parse_installs_ini, parse_profiles_ini, profile_candidate, profile_infos, profiles_in,
    read_u64, scan_profiles_directory, FirefoxProfile, IniEntry, IniSection, InstallLock,
    ProfileInfo,
};

const PROFILES_INI: &str = r#"
[General]
StartWithLastProfile=1
Version=2

[Profile0]
Name=default
IsRelative=1
Path=Profiles/abcdefgh.default
Default=1

[Profile1]
Name=work
IsRelative=0
Path=/abs/work.profile
Default=0

[Profile2]
Name=
Path=nameless

[308046B0AF4A39CB]
Default=Profiles/abcdefgh.default
Locked=1
"#;

fn dirs(names: &[&str]) -> Vec<String> {
    names.iter().map(|n| n.to_string()).collect()
}

#[test]
fn test_get_profiles_directory_linux() {
    let dir = get_profiles_directory(Platform::Linux, Some("/home/testuser"), None).unwrap();
    assert!(dir.contains("/home/testuser/.mozilla/firefox"));
    assert_eq!(dir, "/home/testuser/.mozilla/firefox");
}

#[test]
fn test_get_profiles_directory_macos() {
    let dir = get_profiles_directory(Platform::MacOs, Some("/Users/testuser"), None).unwrap();
    assert!(dir.contains("/Users/testuser/Library/Application Support/Firefox"));
}

#[test]
fn test_get_prefs_path() {
    let prefs_path = get_prefs_path("/home/user/.mozilla/firefox/test.default");
    assert_eq!(
        std::path::PathBuf::from(prefs_path),
        std::path::PathBuf::from("/home/user/.mozilla/firefox/test.default/prefs.js")
    );
}

#[test]
fn test_parse_valid_profiles_ini() {
    let ini_content = r#"
[General]
StartWithLastProfile=1
Version=2

[Profile0]
Name=default
IsRelative=1
Path=Profiles/abcdefgh.default
Default=1

[Profile1]
Name=work
IsRelative=1
Path=Profiles/work.profile
Default=0
"#;

    let mut ini = configparser::ini::Ini::new();
    ini.read(ini_content.to_string()).unwrap();

    assert_eq!(
        ini.get("General", "StartWithLastProfile"),
        Some("1".to_string())
    );
    assert_eq!(ini.get("Profile0", "Name"), Some("default".to_string()));
    assert_eq!(
        ini.get("Profile0", "Path"),
        Some("Profiles/abcdefgh.default".to_string())
    );

    let mut profiles = parse_profiles_ini(ini_content).unwrap();
    profiles.sort_by(|a, b| a.name.cmp(&b.name));
    assert_eq!(
        profiles,
        vec![
            FirefoxProfile {
                name: "default".to_string(),
                path: "Profiles/abcdefgh.default".to_string(),
                is_relative: true,
                is_default: true,
            },
            FirefoxProfile {
                name: "work".to_string(),
                path: "Profiles/work.profile".to_string(),
                is_relative: true,
                is_default: false,
            },
        ]
    );
}

#[test]
fn test_nixos_profile_name_mismatch() {
    let ini_content = r#"
[General]
StartWithLastProfile=1

[Profile0]
Name=darkcodi
IsRelative=1
Path=default
Default=1
"#;

    let mut ini = configparser::ini::Ini::new();
    ini.read(ini_content.to_string()).unwrap();

    assert_eq!(ini.get("Profile0", "Name"), Some("darkcodi".to_string()));
    assert_eq!(ini.get("Profile0", "Path"), Some("default".to_string()));

    let is_relative = ini
        .get("Profile0", "IsRelative")
        .and_then(|v| v.parse::<u32>().ok())
        .unwrap_or(1);
    assert_eq!(is_relative, 1);

    let profiles = parse_profiles_ini(ini_content).unwrap();
    assert_eq!(profiles.len(), 1);
    assert_eq!(profiles[0].name, "darkcodi");
    assert_eq!(profiles[0].path, "default");
    assert!(profiles[0].is_relative);
    assert_eq!(
        profile_candidate(&profiles, "darkcodi", "/home/u/.mozilla/firefox"),
        Some("/home/u/.mozilla/firefox/default".to_string())
    );
}

#[test]
fn test_parse_installs_section() {
    let ini_content = r#"
[General]
StartWithLastProfile=1

[Profile0]
Name=default
IsRelative=1
Path=Profiles/abcdefgh.default
Default=1

[308046B0AF4A39CB]
Default=Profiles/abcdefgh.default
Locked=1
"#;

    let mut ini = configparser::ini::Ini::new();
    ini.read(ini_content.to_string()).unwrap();

    assert_eq!(
        ini.get("308046B0AF4A39CB", "Default"),
        Some("Profiles/abcdefgh.default".to_string())
    );
    assert_eq!(ini.get("308046B0AF4A39CB", "Locked"), Some("1".to_string()));

    let installs = parse_installs_ini(ini_content).unwrap();
    assert_eq!(installs.len(), 1);
    assert_eq!(installs[0].hash, "308046b0af4a39cb");
    assert_eq!(installs[0].default_profile, "Profiles/abcdefgh.default");
}

#[test]
fn profiles_are_listed_with_their_locks() {
    let mut listed = list_profiles("/dir", Some(PROFILES_INI)).unwrap();
    listed.sort_by(|a, b| a.name.cmp(&b.name));
    assert_eq!(listed.len(), 2);
    assert_eq!(listed[0].name, "default");
    assert_eq!(listed[0].path, "Profiles/abcdefgh.default");
    assert!(listed[0].is_default);
    assert!(listed[0].is_relative);
    assert_eq!(
        listed[0].locked_to_install,
        Some("308046b0af4a39cb".to_string())
    );
    assert_eq!(listed[1].name, "work");
    assert!(!listed[1].is_default);
    assert!(!listed[1].is_relative);
    assert_eq!(listed[1].locked_to_install, None);
}

#[test]
fn missing_or_broken_index_is_an_error() {
    assert_eq!(
        list_profiles("/dir", None),
        Err(Error::InvalidProfileDirectory("/dir".to_string()))
    );
    match list_profiles("/dir", Some("[Profile0\nName=x")) {
        Err(Error::ProfilesIniParse(message)) => assert!(!message.is_empty()),
        other => panic!("expected a parse error, got {:?}", other),
    }
    assert!(matches!(
        parse_profiles_ini("=value"),
        Err(Error::ProfilesIniParse(_))
    ));
}

#[test]
fn candidate_follows_the_index() {
    let profiles = parse_profiles_ini(PROFILES_INI).unwrap();
    assert_eq!(
        profile_candidate(&profiles, "default", "/dir"),
        Some("/dir/Profiles/abcdefgh.default".to_string())
    );
    assert_eq!(
        profile_candidate(&profiles, "work", "/dir"),
        Some("/abs/work.profile".to_string())
    );
    assert_eq!(profile_candidate(&profiles, "none", "/dir"), None);
}

#[test]
fn directories_are_matched_exactly_or_by_suffix() {
    let names = dirs(&["abc.default", "xyz.work", "default", "q.default-release"]);
    assert_eq!(
        scan_profiles_directory(&names, "/dir", "default"),
        Ok("/dir/default".to_string())
    );
    assert_eq!(
        scan_profiles_directory(&names, "/dir", "work"),
        Ok("/dir/xyz.work".to_string())
    );
    assert_eq!(
        scan_profiles_directory(&names, "/dir", "missing"),
        Err(Error::ProfileNotFound {
            name: "missing".to_string(),
            directory: "/dir".to_string()
        })
    );
    let twice = dirs(&["a.work", "b.work"]);
    assert_eq!(
        scan_profiles_directory(&twice, "/dir", "work"),
        Err(Error::InvalidProfileDirectory("/dir".to_string()))
    );
    assert_eq!(
        find_profile_path("work", "/dir", Some("/configured"), &twice),
        Ok("/configured".to_string())
    );
    assert_eq!(
        find_profile_path("work", "/dir", None, &names),
        Ok("/dir/xyz.work".to_string())
    );
}

#[test]
fn numbers_are_read_as_unsigned_decimals() {
    assert_eq!(read_u64("0"), Some(0));
    assert_eq!(read_u64("+17"), Some(17));
    assert_eq!(read_u64("0012"), Some(12));
    assert_eq!(read_u64("18446744073709551615"), Some(u64::MAX));
    assert_eq!(read_u64("18446744073709551616"), None);
    assert_eq!(read_u64(""), None);
    assert_eq!(read_u64("+"), None);
    assert_eq!(read_u64("-1"), None);
    assert_eq!(read_u64(" 1"), None);
    assert_eq!(read_u64("1a"), None);
    for text in ["0", "+17", "0012", "18446744073709551615", "18446744073709551616", "", "+", "-1", " 1", "1a", "++1"] {
        assert_eq!(read_u64(text), text.parse::<u64>().ok(), "{:?}", text);
    }
}

#[test]
fn other_platforms_have_no_profiles_directory() {
    assert_eq!(
        get_profiles_directory(Platform::Windows, None, Some("C:\\Users\\u\\AppData")),
        Ok("C:\\Users\\u\\AppData/Mozilla/Firefox".to_string())
    );
    assert_eq!(
        get_profiles_directory(Platform::Linux, None, Some("x")),
        Err(Error::InvalidProfileDirectory(
            "HOME environment variable not set".to_string()
        ))
    );
    assert!(get_profiles_directory(Platform::Other, Some("/h"), Some("a")).is_err());
}

fn section(name: &str, entries: &[(&str, Option<&str>)]) -> IniSection {
    IniSection {
        name: name.to_string(),
        entries: entries
            .iter()
            .map(|(key, value)| IniEntry {
                key: key.to_string(),
                value: value.map(|v| v.to_string()),
            })
            .collect(),
    }
}

#[test]
fn sections_give_profiles_and_locks_in_their_order() {
    let sections = vec![
        section("profile1", &[("name", Some("b")), ("path", Some("/p/b")), ("isrelative", Some("0"))]),
        section("general", &[("default", Some("x"))]),
        section("abc123", &[("default", Some("rel/a")), ("locked", Some("1"))]),
        section("profile0", &[("name", Some("a")), ("path", Some("rel/a")), ("default", Some("1"))]),
        section("profilex", &[("name", Some("no path"))]),
        section("profiley", &[("name", None), ("path", Some("p"))]),
        section("pro", &[("name", Some("short")), ("path", Some("p"))]),
        section("def456", &[("locked", Some("1"))]),
        section("zzz", &[("default", Some("rel/a"))]),
        section(
            "profile2",
            &[
                ("name", Some("c")),
                ("path", Some("c")),
                ("isrelative", Some("yes")),
                ("default", Some("2")),
            ],
        ),
    ];
    let profiles = profiles_in(&sections);
    assert_eq!(
        profiles,
        vec![
            FirefoxProfile {
                name: "b".to_string(),
                path: "/p/b".to_string(),
                is_relative: false,
                is_default: false,
            },
            FirefoxProfile {
                name: "a".to_string(),
                path: "rel/a".to_string(),
                is_relative: true,
                is_default: true,
            },
            FirefoxProfile {
                name: "c".to_string(),
                path: "c".to_string(),
                is_relative: true,
                is_default: false,
            },
        ]
    );
    let locks = installs_in(&sections);
    assert_eq!(
        locks,
        vec![
            InstallLock {
                hash: "abc123".to_string(),
                default_profile: "rel/a".to_string(),
            },
            InstallLock {
                hash: "zzz".to_string(),
                default_profile: "rel/a".to_string(),
            },
        ]
    );
    let listed = profile_infos(profiles, &locks);
    assert_eq!(
        listed[1],
        ProfileInfo {
            name: "a".to_string(),
            path: "rel/a".to_string(),
            is_default: true,
            is_relative: true,
            locked_to_install: Some("abc123".to_string()),
        }
    );
    assert_eq!(listed[0].locked_to_install, None);
    assert_eq!(listed.len(), 3);
}
