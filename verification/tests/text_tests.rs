use ffcv::omni_extractor::{parse_unzip_listing, CacheState, ExtractConfig, OmniExtractor};
use ffcv::overlay::{key_before, PrefMap};
use ffcv::text::{
    chars_of, decimal_string, decimal_string_u64, has_at, has_part, has_prefix, has_suffix,
    join_path, lines, same_chars, slice_of, string_of, trim,
};
use ffcv::types::{PrefEntry, PrefType, PrefValue};

fn chars(text: &str) -> Vec<char> {
    text.chars().collect()
}

fn text(chars: &[char]) -> String {
    chars.iter().collect()
}

fn entry(key: &str, value: i64) -> PrefEntry {
    PrefEntry {
        key: key.to_string(),
        value: PrefValue::Integer(value),
        pref_type: PrefType::Default,
        explanation: None,
        source: None,
        source_file: None,
    }
}

#[test]
fn numbers_are_written_in_decimal() {
    for n in [0usize, 7, 10, 99, 100, 12345, usize::MAX] {
        assert_eq!(decimal_string(n), n.to_string());
    }
    assert_eq!(decimal_string_u64(u64::MAX), "18446744073709551615");
    assert_eq!(decimal_string_u64(1000), "1000");
}

#[test]
fn texts_are_taken_apart_and_put_together() {
    assert_eq!(chars_of("a\u{e9}\u{1F600}b"), chars("a\u{e9}\u{1F600}b"));
    assert_eq!(chars_of(""), Vec::<char>::new());
    assert_eq!(string_of(&chars("hello"), 1, 4), "ell");
    assert_eq!(string_of(&chars("hello"), 2, 2), "");
    assert_eq!(slice_of(&chars("hello"), 0, 5), chars("hello"));
}

#[test]
fn parts_of_texts_are_found() {
    let s = chars("defaults/pref/a.js");
    assert!(has_prefix(&s, &chars("defaults/")));
    assert!(has_prefix(&s, &chars("")));
    assert!(!has_prefix(&s, &chars("efaults")));
    assert!(!has_prefix(&chars("ab"), &chars("abc")));
    assert!(has_suffix(&s, &chars(".js")));
    assert!(has_suffix(&s, &s));
    assert!(!has_suffix(&s, &chars(".j")));
    assert!(has_part(&s, &chars("/pref/")));
    assert!(has_part(&s, &chars("")));
    assert!(has_part(&chars(""), &chars("")));
    assert!(!has_part(&s, &chars("prefs")));
    assert!(has_at(&s, &chars("pref"), 9));
    assert!(!has_at(&s, &chars("pref"), 8));
    assert!(!has_at(&s, &chars("js"), 17));
    assert!(has_at(&s, &chars(""), 18));
    assert!(!has_at(&s, &chars(""), 19));
    assert!(same_chars(&s, &chars("defaults/pref/a.js")));
    assert!(!same_chars(&s, &chars("defaults/pref/a.jz")));
    assert!(!same_chars(&s, &chars("defaults/pref/a.j")));
}

#[test]
fn trimming_follows_the_standard_library() {
    for sample in [
        "",
        " ",
        "a",
        "  a b \t\r\n",
        "\u{a0}x\u{3000}",
        "\u{2003}\u{85}y z\u{205f}\u{1680}",
        "\u{200b}x",
        "\u{feff}x ",
        "\u{b}\u{c}q\u{2028}\u{2029}\u{202f}",
    ] {
        assert_eq!(text(&trim(&chars(sample))), sample.trim(), "{:?}", sample);
    }
}

#[test]
fn lines_follow_the_standard_library() {
    for sample in [
        "",
        "\n",
        "a",
        "a\n",
        "a\nb",
        "a\r\nb\r\n",
        "a\r",
        "a\rb\n\n\nc",
        "\r\n",
        "\n\r",
        "x\r\r\ny",
    ] {
        let ours: Vec<String> = lines(&chars(sample)).iter().map(|l| text(l)).collect();
        let theirs: Vec<String> = sample.lines().map(|l| l.to_string()).collect();
        assert_eq!(ours, theirs, "{:?}", sample);
    }
}

#[test]
fn paths_are_joined_with_one_separator() {
    for (base, name) in [
        ("/home/u", "prefs.js"),
        ("/home/u/", "prefs.js"),
        ("", "prefs.js"),
        ("/", "a/b"),
        ("rel", "x"),
    ] {
        assert_eq!(
            std::path::PathBuf::from(join_path(base, name)),
            std::path::Path::new(base).join(name),
            "{:?} {:?}",
            base,
            name
        );
    }
    assert_eq!(join_path("/home/u", "prefs.js"), "/home/u/prefs.js");
    assert_eq!(join_path("/home/u/", "prefs.js"), "/home/u/prefs.js");
    assert_eq!(join_path("", "prefs.js"), "prefs.js");
}

#[test]
fn keys_are_ordered_as_strings_are() {
    let samples = ["", "a", "A", "ab", "a.b", "b", "\u{e9}", "\u{1F600}", "a\u{e9}", "z"];
    for a in samples {
        for b in samples {
            assert_eq!(key_before(&chars(a), &chars(b)), a < b, "{:?} {:?}", a, b);
        }
    }
}

#[test]
fn map_keeps_one_entry_per_key_in_order() {
    let mut map = PrefMap::new();
    assert_eq!(map.len(), 0);
    for (key, value) in [("m", 1), ("a", 2), ("z", 3), ("m", 4), ("", 5), ("a", 6), ("mm", 7)] {
        map.insert(entry(key, value));
    }
    assert_eq!(map.len(), 5);
    assert_eq!(
        map.into_entries(),
        vec![
            entry("", 5),
            entry("a", 6),
            entry("m", 4),
            entry("mm", 7),
            entry("z", 3)
        ]
    );
}

#[test]
fn archive_listing_is_read_line_by_line() {
    let listing = "Archive:  omni.ja\n  Length      Date    Time    Name\n---------  ---------- -----   ----\n      120  2024-01-01 00:00   defaults/pref/a.js\r\n       10  2024-01-01 00:00   readme.txt\n        5  2024-01-01 00:00   my file.js\n\n   \nnospace.js\n        7  2024-01-01 00:00   lengthy.js\n---------                     -------\n      135                     3 files\n";
    assert_eq!(
        parse_unzip_listing(listing),
        vec!["defaults/pref/a.js".to_string(), "file.js".to_string()]
    );
    assert_eq!(parse_unzip_listing(""), Vec::<String>::new());
}

#[test]
fn cache_path_prefers_the_configured_directory() {
    let configured = OmniExtractor::with_config(
        "/usr/lib/firefox/omni.ja".to_string(),
        Some(1),
        ExtractConfig {
            cache_dir: Some("/cache".to_string()),
            ..Default::default()
        },
    )
    .unwrap();
    assert_eq!(configured.get_cache_path(Some("/tmp/x"), "/tmp", 5), "/cache");
    let plain = OmniExtractor::new("/usr/lib/firefox/omni.ja".to_string(), Some(1)).unwrap();
    assert_eq!(plain.get_cache_path(Some("/tmp/x"), "/tmp", 5), "/tmp/x");
    assert_eq!(
        plain.get_cache_path(None, "/tmp", 1700000000),
        "/tmp/ffcv/omni/omni.ja_1700000000"
    );
    let bare = OmniExtractor::new("bundle".to_string(), Some(1)).unwrap();
    assert_eq!(bare.get_cache_path(None, "/tmp/", 0), "/tmp/ffcv/omni/bundle_0");
    let nameless = OmniExtractor::new("dir/".to_string(), Some(1)).unwrap();
    assert_eq!(nameless.get_cache_path(None, "/t", 9), "/t/ffcv/omni/omni_9");
}

#[test]
fn cache_is_not_reused_under_forced_refresh() {
    let state = || {
        Some(CacheState {
            modified: Some(9),
            js_files: vec!["a.js".to_string()],
        })
    };
    let plain = OmniExtractor::new("omni.ja".to_string(), Some(1)).unwrap();
    assert_eq!(plain.reuse_cache(state(), Some(9)), Some(vec!["a.js".to_string()]));
    assert_eq!(plain.reuse_cache(state(), Some(10)), None);
    assert_eq!(plain.reuse_cache(None, None), None);
    let forced = OmniExtractor::with_config(
        "omni.ja".to_string(),
        Some(1),
        ExtractConfig {
            force_refresh: true,
            ..Default::default()
        },
    )
    .unwrap();
    assert_eq!(forced.reuse_cache(state(), Some(9)), None);
}
