//! What a view of a configuration shows.

use crate::error::{Error, ErrorView};
use crate::query::{first_invalid, query_preferences, selected, slice_views};
use crate::types::{
    entry_views, first_with_key, PrefEntry, PrefEntryView, PrefValue, PrefValueView,
};
use crate::writer::integer_text;
use vstd::prelude::*;
use vstd::string::StringExecFns;

verus! {

/// How a single value is shown as it is: a string without quotes, a
/// number by its numeral, a boolean and null by their words.
pub open spec fn raw_text(value: PrefValueView) -> Seq<char> {
    match value {
        PrefValueView::String(s) => s,
        PrefValueView::Bool(b) => if b {
            "true"@
        } else {
            "false"@
        },
        PrefValueView::Integer(i) => integer_text(i),
        PrefValueView::Float(text) => text,
        PrefValueView::Null => "null"@,
    }
}

/// Writes a single value as it is shown for itself.
pub fn output_raw_value(value: &PrefValue) -> (out: String)
    ensures
        out@ == raw_text(value@),
{
    match value {
        PrefValue::String(s) => s.clone(),
        other => other.render(),
    }
}

/// What a view of a configuration shows.
#[derive(Debug, PartialEq, Eq)]
pub enum ViewOutput {
    /// The value of one preference, as it is.
    Raw(String),
    /// Preferences, in their order.
    Entries(Vec<PrefEntry>),
}

/// What a view of `preferences` shows: with a key to get, the value of the
/// first preference of that key, which must be there; else the preferences
/// that the patterns select, or all of them where there is no pattern.
pub fn view_config(preferences: Vec<PrefEntry>, query_patterns: &[&str], get: Option<&str>) -> (out:
    Result<ViewOutput, Error>)
    ensures
        match get {
            Some(key) => match first_with_key(preferences@, key@) {
                Some(entry) => out is Ok && out->Ok_0 is Raw && out->Ok_0->Raw_0@ == raw_text(
                    entry.value@,
                ),
                None => out is Err && out->Err_0@ == ErrorView::InvalidPreference(
                    "Preference '"@ + key@ + "' not found"@,
                ),
            },
            None => if query_patterns@.len() == 0 {
                out is Ok && out->Ok_0 is Entries && out->Ok_0->Entries_0 == preferences
            } else {
                match first_invalid(slice_views(query_patterns@), 0) {
                    None => out is Ok && out->Ok_0 is Entries && entry_views(
                        out->Ok_0->Entries_0@,
                    ) == selected(entry_views(preferences@), slice_views(query_patterns@)),
                    Some(bad) => out is Err && out->Err_0@ == ErrorView::InvalidGlobPattern(
                        crate::query::invalid_pattern_message(bad),
                    ),
                }
            },
        },
{
    match get {
        Some(key) => match PrefEntry::find_by_key(&preferences, key) {
            Some(entry) => Ok(ViewOutput::Raw(output_raw_value(&entry.value))),
            None => {
                let mut message = String::from_str("Preference '");
                message.append(key);
                message.append("' not found");
                Err(Error::InvalidPreference(message))
            },
        },
        None => if query_patterns.len() == 0 {
            Ok(ViewOutput::Entries(preferences))
        } else {
            match query_preferences(&preferences, query_patterns) {
                Ok(entries) => Ok(ViewOutput::Entries(entries)),
                Err(e) => Err(e),
            }
        },
    }
}

/// A preference as a list of a configuration shows it: its key and its value.
#[derive(Debug, PartialEq, Eq)]
pub struct ConfigEntry {
    pub key: String,
    pub value: PrefValue,
}

/// Mathematical model of a [`ConfigEntry`].
pub struct ConfigEntryView {
    pub key: Seq<char>,
    pub value: PrefValueView,
}

impl View for ConfigEntry {
    type V = ConfigEntryView;

    open spec fn view(&self) -> ConfigEntryView {
        ConfigEntryView { key: self.key@, value: self.value@ }
    }
}

/// The models of a sequence of listed preferences, in order.
pub open spec fn config_views(entries: Seq<ConfigEntry>) -> Seq<ConfigEntryView> {
    entries.map_values(|e: ConfigEntry| e@)
}

/// The key and the value of each entry, in order.
pub open spec fn config_of(entries: Seq<PrefEntryView>) -> Seq<ConfigEntryView> {
    entries.map_values(|e: PrefEntryView| ConfigEntryView { key: e.key, value: e.value })
}

/// The preferences as a list of keys and values, in their order.
pub fn config_entries(preferences: &Vec<PrefEntry>) -> (out: Vec<ConfigEntry>)
    ensures
        config_views(out@) == config_of(entry_views(preferences@)),
{
    let ghost views = entry_views(preferences@);
    let mut out: Vec<ConfigEntry> = Vec::new();
    let mut i: usize = 0;
    while i < preferences.len()
        invariant
            i <= preferences.len(),
            views == entry_views(preferences@),
            config_views(out@) == config_of(views.take(i as int)),
        decreases preferences.len() - i,
    {
        let entry = ConfigEntry {
            key: preferences[i].key.clone(),
            value: preferences[i].value.clone(),
        };
        proof {
            assert(views[i as int] == preferences@[i as int]@);
            assert(views.take(i + 1) == views.take(i as int).push(views[i as int]));
            assert(config_views(out@.push(entry)) == config_views(out@).push(entry@));
            assert(config_of(views.take(i as int).push(views[i as int])) == config_of(
                views.take(i as int),
            ).push(entry@));
        }
        out.push(entry);
        i += 1;
    }
    assert(views.take(preferences.len() as int) == views);
    out
}

} // verus!
