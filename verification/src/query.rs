//! Selects preferences by glob patterns on their keys.
//!
//! Patterns are compiled and matched by the `glob` crate; what this module
//! trusts of it is said at [`compile_pattern`] and [`pattern_matches`].

use crate::error::{Error, ErrorView};
use crate::types::{entry_views, PrefEntry, PrefEntryView};
use vstd::prelude::*;
use vstd::string::StringExecFns;

verus! {

/// A compiled pattern of the `glob` crate.
#[verifier::external_type_specification]
#[verifier::external_body]
pub struct ExPattern(glob::Pattern);

/// The `glob` crate's error for a pattern that it cannot compile.
#[verifier::external_type_specification]
#[verifier::external_body]
pub struct ExPatternError(glob::PatternError);

/// What `Pattern::new` has against the pattern `pattern`: nothing where it
/// accepts the pattern, else the text of its error. The `glob` crate takes
/// the characters that separate the parts of a path from the platform it is
/// built for, so a pattern with `**` beside a backslash is judged by the
/// platform's rule.
pub uninterp spec fn glob_fault(pattern: Seq<char>) -> Option<Seq<char>>;

/// Whether the pattern compiled from `pattern` matches `text`, as
/// `Pattern::matches` tells; the characters that separate the parts of a
/// path are again the platform's.
pub uninterp spec fn glob_matches(pattern: Seq<char>, text: Seq<char>) -> bool;

/// The text that a compiled pattern was made from, as `Pattern::as_str` gives it.
pub uninterp spec fn pattern_text(pattern: glob::Pattern) -> Seq<char>;

/// The text that `Display` writes for a `PatternError`.
pub uninterp spec fn pattern_error_message(e: glob::PatternError) -> Seq<char>;

/// Whether `pattern` is a pattern that can be compiled.
pub open spec fn glob_valid(pattern: Seq<char>) -> bool {
    glob_fault(pattern) is None
}

/// `Pattern::new`: compiles a pattern, and keeps the text it was given; the
/// same text is refused with the same error.
#[verifier::external_body]
fn compile_pattern(pattern: &str) -> (out: Result<glob::Pattern, glob::PatternError>)
    ensures
        match out {
            Ok(compiled) => glob_fault(pattern@) is None && pattern_text(compiled) == pattern@,
            Err(e) => glob_fault(pattern@) == Some(pattern_error_message(e)),
        },
{
    glob::Pattern::new(pattern)
}

/// `Pattern::matches`: whether the pattern matches the whole of `text`.
#[verifier::external_body]
fn pattern_matches(pattern: &glob::Pattern, text: &str) -> (yes: bool)
    ensures
        yes == glob_matches(pattern_text(*pattern), text@),
{
    pattern.matches(text)
}

/// `ToString::to_string` on a `PatternError`: the text that `Display` writes for it.
#[verifier::external_body]
fn pattern_error_text(e: &glob::PatternError) -> (text: String)
    ensures
        text@ == pattern_error_message(*e),
{
    e.to_string()
}

/// The views of a sequence of string slices, in order.
pub open spec fn slice_views(texts: Seq<&str>) -> Seq<Seq<char>> {
    texts.map_values(|t: &str| t@)
}

/// Whether one of `patterns` matches `key`.
pub open spec fn matches_any(patterns: Seq<Seq<char>>, key: Seq<char>) -> bool {
    exists|i: int| 0 <= i < patterns.len() && glob_matches(#[trigger] patterns[i], key)
}

/// The entries of `entries` whose key one of `patterns` matches, in order.
pub open spec fn selected(entries: Seq<PrefEntryView>, patterns: Seq<Seq<char>>) -> Seq<
    PrefEntryView,
>
    decreases entries.len(),
{
    if entries.len() == 0 {
        Seq::empty()
    } else {
        let before = selected(entries.drop_last(), patterns);
        if matches_any(patterns, entries.last().key) {
            before.push(entries.last())
        } else {
            before
        }
    }
}

/// The first of `patterns` from `from` on that is no valid pattern.
pub open spec fn first_invalid(patterns: Seq<Seq<char>>, from: int) -> Option<Seq<char>>
    decreases patterns.len() - from,
{
    if from < 0 || from >= patterns.len() {
        None
    } else if !glob_valid(patterns[from]) {
        Some(patterns[from])
    } else {
        first_invalid(patterns, from + 1)
    }
}

/// What the error for the invalid pattern `pattern` says: the pattern in
/// quotes, and what the pattern compiler has against it.
pub open spec fn invalid_pattern_message(pattern: Seq<char>) -> Seq<char> {
    "'"@ + pattern + "': "@ + glob_fault(pattern)->Some_0
}

/// The texts that compiled patterns were made from, in order.
pub open spec fn pattern_texts(compiled: Seq<glob::Pattern>) -> Seq<Seq<char>> {
    compiled.map_values(|p: glob::Pattern| pattern_text(p))
}

/// Compiles every pattern, or fails at the first that is invalid.
fn compile_all(patterns: &[&str]) -> (out: Result<Vec<glob::Pattern>, Error>)
    ensures
        match first_invalid(slice_views(patterns@), 0) {
            None => out is Ok && pattern_texts(out->Ok_0@) == slice_views(patterns@),
            Some(bad) => out is Err && out->Err_0@ == ErrorView::InvalidGlobPattern(
                invalid_pattern_message(bad),
            ),
        },
{
    let ghost texts = slice_views(patterns@);
    let mut compiled: Vec<glob::Pattern> = Vec::new();
    let mut i: usize = 0;
    assert(pattern_texts(compiled@) == texts.take(0));
    while i < patterns.len()
        invariant
            i <= patterns.len(),
            texts == slice_views(patterns@),
            first_invalid(texts, 0) == first_invalid(texts, i as int),
            pattern_texts(compiled@) == texts.take(i as int),
        decreases patterns.len() - i,
    {
        let pattern: &str = patterns[i];
        assert(texts[i as int] == pattern@);
        match compile_pattern(pattern) {
            Ok(p) => {
                assert(pattern_texts(compiled@.push(p)) == pattern_texts(compiled@).push(
                    pattern_text(p),
                ));
                assert(texts.take(i + 1) == texts.take(i as int).push(texts[i as int]));
                compiled.push(p);
            },
            Err(e) => {
                let mut message = String::from_str("'");
                message.append(pattern);
                message.append("': ");
                message.append(pattern_error_text(&e).as_str());
                return Err(Error::InvalidGlobPattern(message));
            },
        }
        i += 1;
    }
    assert(texts.take(patterns.len() as int) == texts);
    Ok(compiled)
}

/// Whether one of the compiled patterns matches `key`.
fn any_matches(compiled: &Vec<glob::Pattern>, key: &str) -> (yes: bool)
    ensures
        yes == matches_any(pattern_texts(compiled@), key@),
{
    let ghost texts = pattern_texts(compiled@);
    let mut i: usize = 0;
    while i < compiled.len()
        invariant
            i <= compiled.len(),
            texts == pattern_texts(compiled@),
            forall|k: int| 0 <= k < i ==> !glob_matches(#[trigger] texts[k], key@),
        decreases compiled.len() - i,
    {
        assert(texts[i as int] == pattern_text(compiled@[i as int]));
        if pattern_matches(&compiled[i], key) {
            return true;
        }
        i += 1;
    }
    false
}

/// The entries whose key one of the compiled patterns matches, in order.
pub fn select_matching(preferences: &Vec<PrefEntry>, compiled: &Vec<glob::Pattern>) -> (out: Vec<
    PrefEntry,
>)
    ensures
        entry_views(out@) == selected(entry_views(preferences@), pattern_texts(compiled@)),
{
    let ghost views = entry_views(preferences@);
    let ghost texts = pattern_texts(compiled@);
    let mut out: Vec<PrefEntry> = Vec::new();
    let mut i: usize = 0;
    assert(views.take(0) == Seq::<PrefEntryView>::empty());
    assert(entry_views(out@) == Seq::<PrefEntryView>::empty());
    while i < preferences.len()
        invariant
            i <= preferences.len(),
            views == entry_views(preferences@),
            texts == pattern_texts(compiled@),
            entry_views(out@) == selected(views.take(i as int), texts),
        decreases preferences.len() - i,
    {
        let entry = &preferences[i];
        proof {
            assert(views.take(i + 1).drop_last() == views.take(i as int));
            assert(views.take(i + 1).last() == entry@);
        }
        if any_matches(compiled, entry.key.as_str()) {
            let copy = entry.clone();
            assert(entry_views(out@.push(copy)) == entry_views(out@).push(copy@));
            out.push(copy);
        }
        i += 1;
    }
    assert(views.take(preferences.len() as int) == views);
    out
}

/// The preferences whose key at least one of the glob patterns matches, in
/// their order. Every pattern is compiled before any entry is looked at: one
/// invalid pattern fails the query, and the error names the first such
/// pattern and says what the pattern compiler has against it.
pub fn query_preferences(preferences: &Vec<PrefEntry>, patterns: &[&str]) -> (out: Result<
    Vec<PrefEntry>,
    Error,
>)
    ensures
        match first_invalid(slice_views(patterns@), 0) {
            None => out is Ok && entry_views(out->Ok_0@) == selected(
                entry_views(preferences@),
                slice_views(patterns@),
            ),
            Some(bad) => out is Err && out->Err_0@ == ErrorView::InvalidGlobPattern(
                invalid_pattern_message(bad),
            ),
        },
{
    match compile_all(patterns) {
        Ok(compiled) => Ok(select_matching(preferences, &compiled)),
        Err(e) => Err(e),
    }
}

} // verus!
