//! Preference values, entries, and where they come from.

use vstd::prelude::*;

verus! {

/// Which of the four preference functions a statement called.
#[derive(Debug, Clone, Copy, PartialEq, Eq, Structural, Hash)]
pub enum PrefType {
    /// `user_pref(..)`
    User,
    /// `pref(..)`
    Default,
    /// `lock_pref(..)`
    Locked,
    /// `sticky_pref(..)`
    Sticky,
}

/// The tier a preference was loaded from.
#[derive(Debug, Clone, Copy, PartialEq, Eq, Structural, Hash)]
pub enum PrefSource {
    /// Compiled-in defaults from the resource bundle.
    BuiltIn,
    /// The global defaults file shipped beside the browser.
    GlobalDefault,
    /// The profile's own preference file.
    User,
    /// Reserved; no tier of the merge produces it.
    SystemPolicy,
}

impl PrefSource {
    /// Rank of the tier in merge precedence; a higher rank overrides a lower one.
    pub open spec fn rank(self) -> nat {
        match self {
            PrefSource::BuiltIn => 0,
            PrefSource::GlobalDefault => 1,
            PrefSource::User => 2,
            PrefSource::SystemPolicy => 3,
        }
    }

    /// The name of the tier in lower case, its words joined by hyphens.
    pub open spec fn name_spec(self) -> Seq<char> {
        match self {
            PrefSource::BuiltIn => "built-in"@,
            PrefSource::GlobalDefault => "global-default"@,
            PrefSource::User => "user"@,
            PrefSource::SystemPolicy => "system-policy"@,
        }
    }

    /// The name of the tier in lower case, its words joined by hyphens.
    pub fn name(self) -> (name: &'static str)
        ensures
            name@ == self.name_spec(),
    {
        match self {
            PrefSource::BuiltIn => "built-in",
            PrefSource::GlobalDefault => "global-default",
            PrefSource::User => "user",
            PrefSource::SystemPolicy => "system-policy",
        }
    }

    /// Executable form of [`PrefSource::rank`].
    pub fn precedence(self) -> (r: u8)
        ensures
            r == self.rank(),
    {
        match self {
            PrefSource::BuiltIn => 0,
            PrefSource::GlobalDefault => 1,
            PrefSource::User => 2,
            PrefSource::SystemPolicy => 3,
        }
    }
}

/// A preference value.
///
/// A number whose decimal value is whole and fits in 64 signed bits is an
/// `Integer`; every other number is a `Float`, kept as the text of its literal.
#[derive(Debug, PartialEq, Eq)]
pub enum PrefValue {
    Bool(bool),
    Integer(i64),
    Float(String),
    String(String),
    Null,
}

/// Mathematical model of a [`PrefValue`].
pub enum PrefValueView {
    Bool(bool),
    Integer(int),
    Float(Seq<char>),
    String(Seq<char>),
    Null,
}

impl View for PrefValue {
    type V = PrefValueView;

    open spec fn view(&self) -> PrefValueView {
        match self {
            PrefValue::Bool(b) => PrefValueView::Bool(*b),
            PrefValue::Integer(i) => PrefValueView::Integer(*i as int),
            PrefValue::Float(t) => PrefValueView::Float(t@),
            PrefValue::String(s) => PrefValueView::String(s@),
            PrefValue::Null => PrefValueView::Null,
        }
    }
}

impl Clone for PrefValue {
    fn clone(&self) -> (out: Self)
        ensures
            out@ == self@,
    {
        match self {
            PrefValue::Bool(b) => PrefValue::Bool(*b),
            PrefValue::Integer(i) => PrefValue::Integer(*i),
            PrefValue::Float(t) => PrefValue::Float(t.clone()),
            PrefValue::String(s) => PrefValue::String(s.clone()),
            PrefValue::Null => PrefValue::Null,
        }
    }
}

impl PrefValue {
    /// The boolean held, if the value is one.
    pub fn as_bool(&self) -> (out: Option<bool>)
        ensures
            out == (match self@ {
                PrefValueView::Bool(b) => Some(b),
                _ => None,
            }),
    {
        match self {
            PrefValue::Bool(b) => Some(*b),
            _ => None,
        }
    }

    /// The integer held, if the value is one.
    pub fn as_i64(&self) -> (out: Option<i64>)
        ensures
            out == (match *self {
                PrefValue::Integer(i) => Some(i),
                _ => None,
            }),
    {
        match self {
            PrefValue::Integer(i) => Some(*i),
            _ => None,
        }
    }

    /// The literal text of a non-integer number, if the value is one.
    pub fn as_float_text(&self) -> (out: Option<&str>)
        ensures
            match self@ {
                PrefValueView::Float(t) => out.is_some() && out.unwrap()@ == t,
                _ => out.is_none(),
            },
    {
        match self {
            PrefValue::Float(t) => Some(t.as_str()),
            _ => None,
        }
    }

    /// The string held, if the value is one.
    pub fn as_str(&self) -> (out: Option<&str>)
        ensures
            match self@ {
                PrefValueView::String(s) => out.is_some() && out.unwrap()@ == s,
                _ => out.is_none(),
            },
    {
        match self {
            PrefValue::String(s) => Some(s.as_str()),
            _ => None,
        }
    }
}

/// The view of an optional string.
pub open spec fn opt_text(s: Option<String>) -> Option<Seq<char>> {
    match s {
        Some(t) => Some(t@),
        None => None,
    }
}

/// Copies an optional string.
pub fn clone_opt_text(s: &Option<String>) -> (out: Option<String>)
    ensures
        opt_text(out) == opt_text(*s),
{
    match s {
        Some(t) => Some(t.clone()),
        None => None,
    }
}

/// One preference: a statement of a preference file, with where it came from.
#[derive(Debug, PartialEq, Eq)]
pub struct PrefEntry {
    pub key: String,
    pub value: PrefValue,
    pub pref_type: PrefType,
    pub explanation: Option<String>,
    pub source: Option<PrefSource>,
    pub source_file: Option<String>,
}

/// Mathematical model of a [`PrefEntry`].
pub struct PrefEntryView {
    pub key: Seq<char>,
    pub value: PrefValueView,
    pub pref_type: PrefType,
    pub explanation: Option<Seq<char>>,
    pub source: Option<PrefSource>,
    pub source_file: Option<Seq<char>>,
}

impl View for PrefEntry {
    type V = PrefEntryView;

    open spec fn view(&self) -> PrefEntryView {
        PrefEntryView {
            key: self.key@,
            value: self.value@,
            pref_type: self.pref_type,
            explanation: opt_text(self.explanation),
            source: self.source,
            source_file: opt_text(self.source_file),
        }
    }
}

impl Clone for PrefEntry {
    fn clone(&self) -> (out: Self)
        ensures
            out@ == self@,
    {
        PrefEntry {
            key: self.key.clone(),
            value: self.value.clone(),
            pref_type: self.pref_type,
            explanation: clone_opt_text(&self.explanation),
            source: self.source,
            source_file: clone_opt_text(&self.source_file),
        }
    }
}

/// The models of a sequence of entries, in order.
pub open spec fn entry_views(entries: Seq<PrefEntry>) -> Seq<PrefEntryView> {
    entries.map_values(|e: PrefEntry| e@)
}

/// The views of a sequence of strings, in order.
pub open spec fn text_views(texts: Seq<String>) -> Seq<Seq<char>> {
    texts.map_values(|t: String| t@)
}

impl PrefEntry {
    /// The first entry of `entries` whose key is `key`.
    pub fn find_by_key<'a>(entries: &'a Vec<PrefEntry>, key: &str) -> (out: Option<&'a PrefEntry>)
        ensures
            match first_with_key(entries@, key@) {
                Some(e) => out.is_some() && *out.unwrap() == e,
                None => out.is_none(),
            },
    {
        let mut i: usize = 0;
        assert(entries@.skip(0) == entries@);
        while i < entries.len()
            invariant
                i <= entries.len(),
                first_with_key(entries@, key@) == first_with_key(entries@.skip(i as int), key@),
            decreases entries.len() - i,
        {
            if entries[i].key.as_str().eq(key) {
                assert(entries@.skip(i as int)[0] == entries@[i as int]);
                return Some(&entries[i]);
            }
            assert(entries@.skip(i as int).skip(1) == entries@.skip(i + 1));
            i += 1;
        }
        None
    }
}

/// The first entry of `entries` whose key is `key`, if there is one.
pub open spec fn first_with_key(entries: Seq<PrefEntry>, key: Seq<char>) -> Option<PrefEntry>
    decreases entries.len(),
{
    if entries.len() == 0 {
        None
    } else if entries[0].key@ == key {
        Some(entries[0])
    } else {
        first_with_key(entries.skip(1), key)
    }
}

/// A browser installation found on disk.
#[derive(Debug, PartialEq, Eq)]
pub struct FirefoxInstallation {
    pub version: String,
    pub path: String,
    pub has_greprefs: bool,
    pub has_omni_ja: bool,
}

/// The outcome of a merge: the effective preferences and how they were obtained.
#[derive(Debug, PartialEq, Eq)]
pub struct MergedPreferences {
    /// One entry per key, ascending by key.
    pub entries: Vec<PrefEntry>,
    pub install_path: Option<String>,
    pub profile_path: String,
    /// The tiers that were loaded, in the order they were loaded.
    pub loaded_sources: Vec<PrefSource>,
    pub warnings: Vec<String>,
}

/// Mathematical model of a [`MergedPreferences`].
pub struct MergedPreferencesView {
    pub entries: Seq<PrefEntryView>,
    pub install_path: Option<Seq<char>>,
    pub profile_path: Seq<char>,
    pub loaded_sources: Seq<PrefSource>,
    pub warnings: Seq<Seq<char>>,
}

impl View for MergedPreferences {
    type V = MergedPreferencesView;

    open spec fn view(&self) -> MergedPreferencesView {
        MergedPreferencesView {
            entries: entry_views(self.entries@),
            install_path: opt_text(self.install_path),
            profile_path: self.profile_path@,
            loaded_sources: self.loaded_sources@,
            warnings: text_views(self.warnings@),
        }
    }
}

/// Mathematical model of a [`FirefoxInstallation`].
pub struct FirefoxInstallationView {
    pub version: Seq<char>,
    pub path: Seq<char>,
    pub has_greprefs: bool,
    pub has_omni_ja: bool,
}

impl View for FirefoxInstallation {
    type V = FirefoxInstallationView;

    open spec fn view(&self) -> FirefoxInstallationView {
        FirefoxInstallationView {
            version: self.version@,
            path: self.path@,
            has_greprefs: self.has_greprefs,
            has_omni_ja: self.has_omni_ja,
        }
    }
}

} // verus!
