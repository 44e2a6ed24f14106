//! Reads a browser's effective configuration.
//!
//! The preference files of the browser are written in a small language of
//! function calls, `user_pref("key", value);`. This library splits such a
//! file into tokens ([`lexer`]), parses it into entries ([`parser`]), takes
//! the built-in defaults out of the browser's resource bundle, a ZIP archive
//! ([`omni_extractor`]), and merges built-in defaults, global defaults and
//! the user's own preferences into one view, the later over the earlier
//! ([`pref_merger`]). The merged view can be searched by glob patterns
//! ([`query`]).
//!
//! The library reads no file itself: it takes the text of files and the
//! bytes of archives. Each function states what it returns in a contract
//! that Verus checks against its body. What is taken on trust of the crates
//! `zip`, `glob` and `configparser` and of the standard library is said at
//! the item that trusts it.

pub mod cli;
pub mod commands;
pub mod error;
pub mod explanations;
pub mod firefox_locator;
pub mod lexer;
pub mod number;
pub mod omni_extractor;
pub mod overlay;
pub mod parser;
pub mod pref_merger;
pub mod profile;
pub mod query;
pub mod text;
pub mod types;
pub mod writer;

pub use error::Error;
pub use firefox_locator::{
    find_all_firefox_installations, find_firefox_installation, get_firefox_version,
};
pub use omni_extractor::{ExtractConfig, OmniExtractor, DEFAULT_MAX_OMNI_SIZE};
pub use parser::parse_prefs_js;
pub use pref_merger::{
    get_effective_pref, merge_all_preferences, parse_prefs_js_file, MergeConfig,
};
pub use profile::{find_profile_path, get_prefs_path, list_profiles, ProfileInfo};
pub use query::query_preferences;
pub use types::{
    FirefoxInstallation, MergedPreferences, PrefEntry, PrefSource, PrefType, PrefValue,
};
