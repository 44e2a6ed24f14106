//! Merges the built-in defaults, the global defaults and the user's
//! preferences into one view, the later tier over the earlier.

use crate::error::{join2, Error, ErrorView};
use crate::overlay::{last_with_key, lookup, overlay, overlay_holds_the_last, PrefMap};
use crate::parser::{parse_prefs_js, parse_spec};
use crate::text::{join_path, joined};
use crate::types::{
    entry_views, first_with_key, opt_text, text_views, FirefoxInstallation, MergedPreferences,
    MergedPreferencesView, PrefEntry, PrefEntryView, PrefSource,
};
use vstd::prelude::*;
use vstd::string::StringExecFns;

verus! {

/// Which tiers a merge reads, and whether it goes on after a tier has failed.
#[derive(Debug, Clone, Copy, PartialEq, Eq, Structural)]
pub struct MergeConfig {
    /// Read the built-in defaults from the resource bundle.
    pub include_builtins: bool,
    /// Read the global defaults file.
    pub include_globals: bool,
    /// Read the profile's own preferences.
    pub include_user: bool,
    /// Record a failed tier as a warning and go on, instead of failing.
    pub continue_on_error: bool,
}

impl Default for MergeConfig {
    fn default() -> (config: Self)
        ensures
            config == (MergeConfig {
                include_builtins: true,
                include_globals: true,
                include_user: true,
                continue_on_error: true,
            }),
    {
        MergeConfig {
            include_builtins: true,
            include_globals: true,
            include_user: true,
            continue_on_error: true,
        }
    }
}

/// The first entry of `prefs` with the key `key`; in a merged sequence, where
/// no key stands twice, the effective entry of that key.
pub fn get_effective_pref<'a>(prefs: &'a Vec<PrefEntry>, key: &str) -> (out: Option<&'a PrefEntry>)
    ensures
        match first_with_key(prefs@, key@) {
            Some(e) => out.is_some() && *out.unwrap() == e,
            None => out.is_none(),
        },
{
    PrefEntry::find_by_key(prefs, key)
}

/// The entry `e` marked as loaded from the tier `source` and the file `file`.
pub open spec fn stamp(e: PrefEntryView, source: PrefSource, file: Seq<char>) -> PrefEntryView {
    PrefEntryView { source: Some(source), source_file: Some(file), ..e }
}

/// Every entry of `entries` marked as loaded from `source` and `file`.
pub open spec fn stamp_all(entries: Seq<PrefEntryView>, source: PrefSource, file: Seq<char>) -> Seq<
    PrefEntryView,
> {
    entries.map_values(|e: PrefEntryView| stamp(e, source, file))
}

/// What parsing the text `content` of the file `file` of the tier `source` gives.
pub open spec fn parse_stamped_spec(content: Seq<char>, source: PrefSource, file: Seq<char>)
    -> Result<Seq<PrefEntryView>, ErrorView> {
    match parse_spec(content) {
        Ok(entries) => Ok(stamp_all(entries, source, file)),
        Err(e) => Err(e),
    }
}

/// Whether the result `out` is the result `expected` that the model gives.
pub open spec fn loaded_as(
    out: Result<Vec<PrefEntry>, Error>,
    expected: Result<Seq<PrefEntryView>, ErrorView>,
) -> bool {
    match expected {
        Ok(entries) => out is Ok && entry_views(out->Ok_0@) == entries,
        Err(e) => out is Err && out->Err_0@ == e,
    }
}

/// Parses the text of a preference file and marks each entry with the tier
/// and the file it came from.
pub fn parse_stamped(content: &str, source: PrefSource, file: &str) -> (out: Result<
    Vec<PrefEntry>,
    Error,
>)
    ensures
        loaded_as(out, parse_stamped_spec(content@, source, file@)),
{
    let parsed = match parse_prefs_js(content) {
        Ok(parsed) => parsed,
        Err(e) => {
            return Err(e);
        },
    };
    let ghost views = entry_views(parsed@);
    let mut entries: Vec<PrefEntry> = Vec::new();
    let mut i: usize = 0;
    while i < parsed.len()
        invariant
            i <= parsed.len(),
            views == entry_views(parsed@),
            entry_views(entries@) == stamp_all(views.take(i as int), source, file@),
        decreases parsed.len() - i,
    {
        let e = &parsed[i];
        let stamped = PrefEntry {
            key: e.key.clone(),
            value: e.value.clone(),
            pref_type: e.pref_type,
            explanation: crate::types::clone_opt_text(&e.explanation),
            source: Some(source),
            source_file: Some(String::from_str(file)),
        };
        assert(stamped@ == stamp(views[i as int], source, file@));
        assert(views.take(i + 1) == views.take(i as int).push(views[i as int]));
        assert(stamp_all(views.take(i as int).push(views[i as int]), source, file@) == stamp_all(
            views.take(i as int),
            source,
            file@,
        ).push(stamp(views[i as int], source, file@)));
        assert(entry_views(entries@.push(stamped)) == entry_views(entries@).push(stamped@));
        entries.push(stamped);
        i += 1;
    }
    assert(views.take(parsed.len() as int) == views);
    Ok(entries)
}

/// Parses the text of a user preference file named `file_name`: each entry
/// is marked as a user preference from that file.
pub fn parse_prefs_js_file(content: &str, file_name: &str) -> (out: Result<Vec<PrefEntry>, Error>)
    ensures
        loaded_as(out, parse_stamped_spec(content@, PrefSource::User, file_name@)),
{
    parse_stamped(content, PrefSource::User, file_name)
}

/// The model of a text that was read, or of the error that reading it gave.
pub open spec fn read_view(read: Result<String, Error>) -> Result<Seq<char>, ErrorView> {
    match read {
        Ok(text) => Ok(text@),
        Err(e) => Err(e@),
    }
}

/// What loading a single preference file gives: the entries or the error,
/// and the warning that it adds, if any. `content` is `None` where the file
/// does not exist; `missing` names the file in the error and `warning` is
/// the warning for that case.
pub open spec fn file_load(
    content: Option<Result<Seq<char>, ErrorView>>,
    source: PrefSource,
    file: Seq<char>,
    missing: Seq<char>,
    warning: Seq<char>,
) -> (Result<Seq<PrefEntryView>, ErrorView>, Seq<Seq<char>>) {
    match content {
        None => (Err(ErrorView::PrefFileNotFound { file: missing }), seq![warning]),
        Some(Err(e)) => (Err(e), Seq::empty()),
        Some(Ok(text)) => (parse_stamped_spec(text, source, file), Seq::empty()),
    }
}

/// The model of the content of a file that may be missing.
pub open spec fn content_view(content: Option<Result<String, Error>>) -> Option<
    Result<Seq<char>, ErrorView>,
> {
    match content {
        None => None,
        Some(read) => Some(read_view(read)),
    }
}

/// Loads one preference file; see [`file_load`].
fn load_file(
    content: Option<Result<String, Error>>,
    source: PrefSource,
    file: &str,
    missing: &str,
    warning: String,
    warnings: &mut Vec<String>,
) -> (out: Result<Vec<PrefEntry>, Error>)
    ensures
        ({
            let (expected, added) = file_load(
                content_view(content),
                source,
                file@,
                missing@,
                warning@,
            );
            &&& loaded_as(out, expected)
            &&& text_views(final(warnings)@) == text_views(old(warnings)@) + added
        }),
{
    let ghost before = text_views(warnings@);
    match content {
        None => {
            warnings.push(warning);
            assert(text_views(warnings@) == before + seq![warning@]);
            Err(Error::PrefFileNotFound { file: String::from_str(missing) })
        },
        Some(Err(e)) => {
            assert(before + Seq::<Seq<char>>::empty() == before);
            Err(e)
        },
        Some(Ok(text)) => {
            assert(before + Seq::<Seq<char>>::empty() == before);
            parse_stamped(text.as_str(), source, file)
        },
    }
}

/// What loading the profile's preferences gives; `content` is the text of
/// the file at `path`, `None` where no file is there.
pub open spec fn user_load(path: Seq<char>, content: Option<Result<Seq<char>, ErrorView>>) -> (
    Result<Seq<PrefEntryView>, ErrorView>,
    Seq<Seq<char>>,
) {
    file_load(content, PrefSource::User, "prefs.js"@, path, "prefs.js not found at "@ + path)
}

/// Loads the profile's preferences from the text of the file at
/// `prefs_js_path`; a missing file is an error and adds a warning.
pub fn load_user_preferences(
    prefs_js_path: &str,
    content: Option<Result<String, Error>>,
    warnings: &mut Vec<String>,
) -> (out: Result<Vec<PrefEntry>, Error>)
    ensures
        loaded_as(out, user_load(prefs_js_path@, content_view(content)).0),
        text_views(final(warnings)@) == text_views(old(warnings)@) + user_load(
            prefs_js_path@,
            content_view(content),
        ).1,
{
    load_file(
        content,
        PrefSource::User,
        "prefs.js",
        prefs_js_path,
        join2("prefs.js not found at ", prefs_js_path),
        warnings,
    )
}

/// What loading the global defaults gives; `content` is the text of the
/// installation's `greprefs.js`, `None` where it has none.
pub open spec fn global_load(content: Option<Result<Seq<char>, ErrorView>>) -> (
    Result<Seq<PrefEntryView>, ErrorView>,
    Seq<Seq<char>>,
) {
    file_load(
        content,
        PrefSource::GlobalDefault,
        "greprefs.js"@,
        "greprefs.js"@,
        "greprefs.js not found in Firefox installation"@,
    )
}

/// Loads the global defaults from the text of the installation's
/// `greprefs.js`; a missing file is an error and adds a warning.
pub fn load_global_preferences(
    content: Option<Result<String, Error>>,
    warnings: &mut Vec<String>,
) -> (out: Result<Vec<PrefEntry>, Error>)
    ensures
        loaded_as(out, global_load(content_view(content)).0),
        text_views(final(warnings)@) == text_views(old(warnings)@) + global_load(
            content_view(content),
        ).1,
{
    load_file(
        content,
        PrefSource::GlobalDefault,
        "greprefs.js",
        "greprefs.js",
        String::from_str("greprefs.js not found in Firefox installation"),
        warnings,
    )
}

/// A file taken out of the resource bundle: its path inside the bundle, and
/// its text or the error that reading it as text gave.
#[derive(Debug, PartialEq, Eq)]
pub struct BundleFile {
    pub path: String,
    pub content: Result<String, Error>,
}

/// Mathematical model of a [`BundleFile`].
pub struct BundleFileView {
    pub path: Seq<char>,
    pub content: Result<Seq<char>, ErrorView>,
}

impl View for BundleFile {
    type V = BundleFileView;

    open spec fn view(&self) -> BundleFileView {
        BundleFileView { path: self.path@, content: read_view(self.content) }
    }
}

/// The models of a sequence of bundle files, in order.
pub open spec fn bundle_views(files: Seq<BundleFile>) -> Seq<BundleFileView> {
    files.map_values(|f: BundleFile| f@)
}

/// What one file of the bundle gives: its entries, marked as built in and
/// as coming from `omni.ja:` and the file's path, or the error.
pub open spec fn bundle_file_load(file: BundleFileView) -> Result<Seq<PrefEntryView>, ErrorView> {
    match file.content {
        Err(e) => Err(e),
        Ok(text) => parse_stamped_spec(text, PrefSource::BuiltIn, "omni.ja:"@ + file.path),
    }
}

/// The entries of the files of the bundle that can be parsed, in the order
/// of the files.
pub open spec fn bundle_entries(files: Seq<BundleFileView>) -> Seq<PrefEntryView>
    decreases files.len(),
{
    if files.len() == 0 {
        Seq::empty()
    } else {
        let before = bundle_entries(files.drop_last());
        match bundle_file_load(files.last()) {
            Ok(entries) => before + entries,
            Err(_) => before,
        }
    }
}

/// One warning for each file of the bundle that cannot be parsed, in the
/// order of the files.
pub open spec fn bundle_warnings(files: Seq<BundleFileView>) -> Seq<Seq<char>>
    decreases files.len(),
{
    if files.len() == 0 {
        Seq::empty()
    } else {
        let before = bundle_warnings(files.drop_last());
        match bundle_file_load(files.last()) {
            Ok(_) => before,
            Err(e) => before.push("Failed to parse "@ + files.last().path + ": "@ + e.text()),
        }
    }
}

/// The model of what was extracted from the bundle.
pub open spec fn bundle_view(bundle: Option<Result<Vec<BundleFile>, Error>>) -> Option<
    Result<Seq<BundleFileView>, ErrorView>,
> {
    match bundle {
        None => None,
        Some(Err(e)) => Some(Err(e@)),
        Some(Ok(files)) => Some(Ok(bundle_views(files@))),
    }
}

/// What loading the built-in defaults gives; `bundle` is what was extracted
/// from the installation's resource bundle, `None` where it has none.
pub open spec fn builtin_load(bundle: Option<Result<Seq<BundleFileView>, ErrorView>>) -> (
    Result<Seq<PrefEntryView>, ErrorView>,
    Seq<Seq<char>>,
) {
    match bundle {
        None => (
            Err(ErrorView::PrefFileNotFound { file: "omni.ja"@ }),
            seq!["omni.ja not found in Firefox installation"@],
        ),
        Some(Err(e)) => (Err(e), Seq::empty()),
        Some(Ok(files)) => (Ok(bundle_entries(files)), bundle_warnings(files)),
    }
}

/// Loads the built-in defaults from the files extracted from the
/// installation's resource bundle. A missing bundle and a failed extraction
/// are errors; a file that cannot be parsed adds a warning and is left out.
pub fn load_builtin_preferences(
    bundle: Option<Result<Vec<BundleFile>, Error>>,
    warnings: &mut Vec<String>,
) -> (out: Result<Vec<PrefEntry>, Error>)
    ensures
        loaded_as(out, builtin_load(bundle_view(bundle)).0),
        text_views(final(warnings)@) == text_views(old(warnings)@) + builtin_load(
            bundle_view(bundle),
        ).1,
{
    let ghost before = text_views(warnings@);
    let files = match bundle {
        None => {
            let warning = String::from_str("omni.ja not found in Firefox installation");
            warnings.push(warning);
            assert(text_views(warnings@) == before + seq![warning@]);
            return Err(Error::PrefFileNotFound { file: String::from_str("omni.ja") });
        },
        Some(Err(e)) => {
            assert(before + Seq::<Seq<char>>::empty() == before);
            return Err(e);
        },
        Some(Ok(files)) => files,
    };
    let ghost views = bundle_views(files@);
    let mut all: Vec<PrefEntry> = Vec::new();
    let mut i: usize = 0;
    assert(views.take(0) == Seq::<BundleFileView>::empty());
    assert(before + Seq::<Seq<char>>::empty() == before);
    assert(entry_views(all@) == Seq::<PrefEntryView>::empty());
    while i < files.len()
        invariant
            i <= files.len(),
            views == bundle_views(files@),
            before == text_views(old(warnings)@),
            entry_views(all@) == bundle_entries(views.take(i as int)),
            text_views(warnings@) == before + bundle_warnings(views.take(i as int)),
        decreases files.len() - i,
    {
        let file = &files[i];
        let ghost done = views.take(i as int);
        let ghost entries_before = entry_views(all@);
        let ghost warnings_before = text_views(warnings@);
        proof {
            assert(views.take(i + 1).drop_last() == done);
            assert(views.take(i + 1).last() == file@);
        }
        let loaded = match &file.content {
            Ok(text) => parse_stamped(
                text.as_str(),
                PrefSource::BuiltIn,
                join2("omni.ja:", file.path.as_str()).as_str(),
            ),
            Err(e) => Err(copy_error(e)),
        };
        match loaded {
            Ok(mut prefs) => {
                let ghost added = entry_views(prefs@);
                all.append(&mut prefs);
                assert(entry_views(all@) == entries_before + added);
            },
            Err(e) => {
                let mut warning = join2("Failed to parse ", file.path.as_str());
                warning.append(": ");
                warning.append(e.message().as_str());
                warnings.push(warning);
                assert(text_views(warnings@) == warnings_before.push(warning@));
                assert((before + bundle_warnings(done)).push(warning@) == before
                    + bundle_warnings(done).push(warning@));
            },
        }
        i += 1;
    }
    assert(views.take(files.len() as int) == views);
    Ok(all)
}

/// A copy of an error.
pub fn copy_error(e: &Error) -> (out: Error)
    ensures
        out@ == e@,
{
    match e {
        Error::Lexer { line, column, message } => Error::Lexer {
            line: *line,
            column: *column,
            message: message.clone(),
        },
        Error::Parser { line, column, message } => Error::Parser {
            line: *line,
            column: *column,
            message: message.clone(),
        },
        Error::InvalidPreference(m) => Error::InvalidPreference(m.clone()),
        Error::Io(m) => Error::Io(m.clone()),
        Error::ProfileNotFound { name, directory } => Error::ProfileNotFound {
            name: name.clone(),
            directory: directory.clone(),
        },
        Error::InvalidProfileDirectory(d) => Error::InvalidProfileDirectory(d.clone()),
        Error::InvalidGlobPattern(m) => Error::InvalidGlobPattern(m.clone()),
        Error::ProfilesIniParse(m) => Error::ProfilesIniParse(m.clone()),
        Error::FirefoxNotFound { searched_paths } => Error::FirefoxNotFound {
            searched_paths: searched_paths.clone(),
        },
        Error::OmniJaError(m) => Error::OmniJaError(m.clone()),
        Error::PrefFileNotFound { file } => Error::PrefFileNotFound { file: file.clone() },
        Error::ExtractionFailed(m) => Error::ExtractionFailed(m.clone()),
        Error::OmniJaTooLarge { actual, limit } => Error::OmniJaTooLarge {
            actual: *actual,
            limit: *limit,
        },
    }
}

/// What a merge reads, gathered beforehand.
#[derive(Debug, PartialEq, Eq)]
pub struct MergeSources {
    /// The outcome of looking for an installation; used where no
    /// installation path is given and a tier needs one.
    pub located: Result<Option<FirefoxInstallation>, Error>,
    /// What was extracted from the installation's resource bundle; `None`
    /// where the installation has none.
    pub bundle: Option<Result<Vec<BundleFile>, Error>>,
    /// The text of the installation's `greprefs.js`; `None` where it has none.
    pub greprefs: Option<Result<String, Error>>,
    /// The text of the profile's `prefs.js`; `None` where it has none.
    pub prefs_js: Option<Result<String, Error>>,
}

/// Mathematical model of a [`MergeSources`].
pub struct MergeSourcesView {
    pub located: Result<Option<Seq<char>>, ErrorView>,
    pub bundle: Option<Result<Seq<BundleFileView>, ErrorView>>,
    pub greprefs: Option<Result<Seq<char>, ErrorView>>,
    pub prefs_js: Option<Result<Seq<char>, ErrorView>>,
}

/// The model of the outcome of looking for an installation: its path.
pub open spec fn located_view(located: Result<Option<FirefoxInstallation>, Error>) -> Result<
    Option<Seq<char>>,
    ErrorView,
> {
    match located {
        Ok(Some(install)) => Ok(Some(install.path@)),
        Ok(None) => Ok(None),
        Err(e) => Err(e@),
    }
}

impl View for MergeSources {
    type V = MergeSourcesView;

    open spec fn view(&self) -> MergeSourcesView {
        MergeSourcesView {
            located: located_view(self.located),
            bundle: bundle_view(self.bundle),
            greprefs: content_view(self.greprefs),
            prefs_js: content_view(self.prefs_js),
        }
    }
}

/// How far a merge has come: every entry put into the map so far, in the
/// order in which they were put, the tiers loaded, and the warnings.
pub struct MergeState {
    pub entries: Seq<PrefEntryView>,
    pub loaded: Seq<PrefSource>,
    pub warnings: Seq<Seq<char>>,
}

impl MergeState {
    /// The state with `added` as further warnings.
    pub open spec fn warned(self, added: Seq<Seq<char>>) -> MergeState {
        MergeState { warnings: self.warnings + added, ..self }
    }
}

/// Whether a merge looks for an installation: none is given, and a tier
/// that needs one is asked for.
pub open spec fn looks_for_installation(given: bool, config: MergeConfig) -> bool {
    !given && (config.include_builtins || config.include_globals)
}

/// The installation that the tiers are read from: the one given, else the
/// one that was found where the merge looks for one.
pub open spec fn resolved_install(
    install_path: Option<Seq<char>>,
    config: MergeConfig,
    located: Result<Option<Seq<char>>, ErrorView>,
) -> Option<Seq<char>> {
    if !looks_for_installation(install_path is Some, config) {
        install_path
    } else {
        match located {
            Ok(Some(path)) => Some(path),
            _ => None,
        }
    }
}

/// What is said where looking for an installation gave none.
pub open spec fn locate_warning(located: Result<Option<Seq<char>>, ErrorView>) -> Seq<char> {
    match located {
        Err(e) => "Failed to locate Firefox: "@ + e.text(),
        _ => "Firefox installation not found"@,
    }
}

/// The error of a merge that looks for an installation, finds none and does
/// not go on: that of the lowest tier that is asked for and cannot be
/// read, the built-in tier's with what [`locate_warning`] says, else the
/// global tier's.
pub open spec fn locate_abort(
    config: MergeConfig,
    located: Result<Option<Seq<char>>, ErrorView>,
) -> ErrorView {
    if config.include_builtins {
        ErrorView::OmniJaError(locate_warning(located))
    } else {
        ErrorView::PrefFileNotFound { file: "greprefs.js"@ }
    }
}

/// The state at the start of the merge, behind the search for an
/// installation. An installation that was found by looking for it counts
/// as a loaded built-in source. Where the merge looks for one and there is
/// none, the tiers that need it are absent: that is a warning where the
/// merge goes on after errors, and the end of the merge where it does not.
pub open spec fn locate_step(
    install_path: Option<Seq<char>>,
    config: MergeConfig,
    located: Result<Option<Seq<char>>, ErrorView>,
) -> Result<MergeState, ErrorView> {
    let start = MergeState { entries: Seq::empty(), loaded: Seq::empty(), warnings: Seq::empty() };
    if !looks_for_installation(install_path is Some, config) {
        Ok(start)
    } else {
        match located {
            Ok(Some(path)) => Ok(MergeState { loaded: seq![PrefSource::BuiltIn], ..start }),
            _ => if config.continue_on_error {
                Ok(start.warned(seq![locate_warning(located)]))
            } else {
                Err(locate_abort(config, located))
            },
        }
    }
}

/// The warning for the tier `source` that failed with `e`.
pub open spec fn failure_message(source: PrefSource, e: ErrorView) -> Seq<char> {
    (match source {
        PrefSource::BuiltIn => "Failed to load built-in preferences: "@,
        PrefSource::GlobalDefault => "Failed to load global preferences: "@,
        _ => "Failed to load user preferences: "@,
    }) + e.text()
}

/// The error of the merge where the tier `source` failed with `e` and the
/// merge does not go on.
pub open spec fn abort_error(source: PrefSource, e: ErrorView) -> ErrorView {
    match source {
        PrefSource::BuiltIn => ErrorView::OmniJaError(failure_message(source, e)),
        PrefSource::GlobalDefault => ErrorView::PrefFileNotFound { file: "greprefs.js"@ },
        _ => e,
    }
}

/// The state after the tier `source` was loaded with the outcome `load`:
/// its entries are put into the map and the tier counts as loaded, or its
/// failure is a warning, and the end of the merge unless it goes on.
pub open spec fn tier_step(
    state: MergeState,
    source: PrefSource,
    load: Result<Seq<PrefEntryView>, ErrorView>,
    continue_on_error: bool,
) -> Result<MergeState, ErrorView> {
    match load {
        Ok(entries) => Ok(
            MergeState {
                entries: state.entries + entries,
                loaded: state.loaded.push(source),
                ..state
            },
        ),
        Err(e) => if continue_on_error {
            Ok(state.warned(seq![failure_message(source, e)]))
        } else {
            Err(abort_error(source, e))
        },
    }
}

/// The state after the tier `source`, which is read where `enabled`.
pub open spec fn tier(
    state: MergeState,
    enabled: bool,
    source: PrefSource,
    load: (Result<Seq<PrefEntryView>, ErrorView>, Seq<Seq<char>>),
    continue_on_error: bool,
) -> Result<MergeState, ErrorView> {
    if enabled {
        tier_step(state.warned(load.1), source, load.0, continue_on_error)
    } else {
        Ok(state)
    }
}

/// The state after the tiers that are read from an installation: the
/// built-in tier, then the global tier, each where it is asked for and an
/// installation is known.
pub open spec fn install_tiers(
    start: MergeState,
    known: bool,
    config: MergeConfig,
    sources: MergeSourcesView,
) -> Result<MergeState, ErrorView> {
    match tier(
        start,
        config.include_builtins && known,
        PrefSource::BuiltIn,
        builtin_load(sources.bundle),
        config.continue_on_error,
    ) {
        Err(e) => Err(e),
        Ok(after_builtin) => tier(
            after_builtin,
            config.include_globals && known,
            PrefSource::GlobalDefault,
            global_load(sources.greprefs),
            config.continue_on_error,
        ),
    }
}

/// The state after the search for an installation and the three tiers,
/// from the lowest precedence to the highest.
pub open spec fn merge_tiers(
    profile_path: Seq<char>,
    install_path: Option<Seq<char>>,
    config: MergeConfig,
    sources: MergeSourcesView,
) -> Result<MergeState, ErrorView> {
    let known = resolved_install(install_path, config, sources.located) is Some;
    match locate_step(install_path, config, sources.located) {
        Err(e) => Err(e),
        Ok(start) => match install_tiers(start, known, config, sources) {
            Err(e) => Err(e),
            Ok(after_global) => tier(
                after_global,
                config.include_user,
                PrefSource::User,
                user_load(joined(profile_path, "prefs.js"@), sources.prefs_js),
                config.continue_on_error,
            ),
        },
    }
}

/// What merging gives: the overlay of the entries of the tiers, the later
/// tier over the earlier, ascending by key.
pub open spec fn merge_spec(
    profile_path: Seq<char>,
    install_path: Option<Seq<char>>,
    config: MergeConfig,
    sources: MergeSourcesView,
) -> Result<MergedPreferencesView, ErrorView> {
    match merge_tiers(profile_path, install_path, config, sources) {
        Err(e) => Err(e),
        Ok(state) => Ok(
            MergedPreferencesView {
                entries: overlay(state.entries),
                install_path: resolved_install(install_path, config, sources.located),
                profile_path,
                loaded_sources: state.loaded,
                warnings: state.warnings,
            },
        ),
    }
}

/// A merge under way.
struct Progress {
    map: PrefMap,
    loaded: Vec<PrefSource>,
    warnings: Vec<String>,
    entries: Ghost<Seq<PrefEntryView>>,
}

impl Progress {
    spec fn state(&self) -> MergeState {
        MergeState {
            entries: self.entries@,
            loaded: self.loaded@,
            warnings: text_views(self.warnings@),
        }
    }

    spec fn wf(&self) -> bool {
        self.map.wf() && self.map@ == overlay(self.entries@)
    }

    /// Puts the entries of a tier into the map, or records its failure.
    fn apply(
        &mut self,
        source: PrefSource,
        load: Result<Vec<PrefEntry>, Error>,
        continue_on_error: bool,
    ) -> (out: Result<(), Error>)
        requires
            old(self).wf(),
        ensures
            final(self).wf(),
            ({
                let expected = match load {
                    Ok(entries) => Ok::<Seq<PrefEntryView>, ErrorView>(entry_views(entries@)),
                    Err(e) => Err::<Seq<PrefEntryView>, ErrorView>(e@),
                };
                match tier_step(old(self).state(), source, expected, continue_on_error) {
                    Ok(state) => out is Ok && final(self).state() == state,
                    Err(e) => out is Err && out->Err_0@ == e,
                }
            }),
    {
        match load {
            Ok(entries) => {
                let ghost before = self.entries@;
                let ghost added = entry_views(entries@);
                let mut i: usize = 0;
                assert(before + added.take(0) == before);
                while i < entries.len()
                    invariant
                        i <= entries.len(),
                        added == entry_views(entries@),
                        self.map.wf(),
                        self.map@ == overlay(before + added.take(i as int)),
                        self.loaded == old(self).loaded,
                        self.warnings == old(self).warnings,
                    decreases entries.len() - i,
                {
                    let entry = entries[i].clone();
                    proof {
                        let longer = before + added.take(i + 1);
                        assert(longer.drop_last() == before + added.take(i as int));
                        assert(longer.last() == entry@);
                    }
                    self.map.insert(entry);
                    i += 1;
                }
                assert(added.take(entries.len() as int) == added);
                self.entries = Ghost(before + added);
                self.loaded.push(source);
                Ok(())
            },
            Err(e) => {
                let prefix = match source {
                    PrefSource::BuiltIn => "Failed to load built-in preferences: ",
                    PrefSource::GlobalDefault => "Failed to load global preferences: ",
                    _ => "Failed to load user preferences: ",
                };
                let message = join2(prefix, e.message().as_str());
                if continue_on_error {
                    let ghost before = text_views(self.warnings@);
                    self.warnings.push(message);
                    assert(text_views(self.warnings@) == before + seq![message@]);
                    Ok(())
                } else {
                    match source {
                        PrefSource::BuiltIn => Err(Error::OmniJaError(message)),
                        PrefSource::GlobalDefault => Err(
                            Error::PrefFileNotFound { file: String::from_str("greprefs.js") },
                        ),
                        _ => Err(e),
                    }
                }
            },
        }
    }
}

/// The installation that a merge reads its built-in and global tiers from:
/// the one given, else the one that was found where the merge looks for one.
pub fn resolve_install_path(
    install_path: Option<&str>,
    config: &MergeConfig,
    located: &Result<Option<FirefoxInstallation>, Error>,
) -> (out: Option<String>)
    ensures
        opt_text(out) == resolved_install(
            match install_path {
                Some(p) => Some(p@),
                None => None,
            },
            *config,
            located_view(*located),
        ),
{
    match install_path {
        Some(path) => Some(String::from_str(path)),
        None => if config.include_builtins || config.include_globals {
            match located {
                Ok(Some(install)) => Some(install.path.clone()),
                _ => None,
            }
        } else {
            None
        },
    }
}

/// Merges the preferences of the three tiers into one view.
///
/// The tiers are read in the order built-in, global, user, each where the
/// configuration asks for it, and a later entry replaces an earlier one of
/// the same key. The first two are read from the installation given, or
/// from the one that was found where none is given. A tier that fails, and
/// an installation that is looked for and not found, adds a warning; the
/// merge then goes on where `continue_on_error` is set, and fails with a
/// typed error otherwise.
#[verifier::rlimit(50)]
pub fn merge_all_preferences(
    profile_path: &str,
    install_path: Option<&str>,
    config: &MergeConfig,
    sources: MergeSources,
) -> (out: Result<MergedPreferences, Error>)
    ensures
        match merge_spec(
            profile_path@,
            match install_path {
                Some(p) => Some(p@),
                None => None,
            },
            *config,
            sources@,
        ) {
            Ok(merged) => out is Ok && out->Ok_0@ == merged,
            Err(e) => out is Err && out->Err_0@ == e,
        },
{
    let resolved = resolve_install_path(install_path, config, &sources.located);
    let mut progress = Progress {
        map: PrefMap::new(),
        loaded: Vec::new(),
        warnings: Vec::new(),
        entries: Ghost(Seq::empty()),
    };
    assert(text_views(progress.warnings@) == Seq::<Seq<char>>::empty());
    if install_path.is_none() && (config.include_builtins || config.include_globals) {
        match &sources.located {
            Ok(Some(_)) => {
                progress.loaded.push(PrefSource::BuiltIn);
            },
            not_found => {
                let warning = match not_found {
                    Err(e) => join2("Failed to locate Firefox: ", e.message().as_str()),
                    _ => String::from_str("Firefox installation not found"),
                };
                assert(warning@ == locate_warning(sources@.located));
                if !config.continue_on_error {
                    return Err(
                        if config.include_builtins {
                            Error::OmniJaError(warning)
                        } else {
                            Error::PrefFileNotFound { file: String::from_str("greprefs.js") }
                        },
                    );
                }
                progress.warnings.push(warning);
                assert(text_views(progress.warnings@) == Seq::<Seq<char>>::empty() + seq![
                    warning@,
                ]);
            },
        }
    }
    let MergeSources { located, bundle, greprefs, prefs_js } = sources;
    if config.include_builtins && resolved.is_some() {
        let load = load_builtin_preferences(bundle, &mut progress.warnings);
        match progress.apply(PrefSource::BuiltIn, load, config.continue_on_error) {
            Err(e) => {
                return Err(e);
            },
            Ok(_) => {},
        }
    }
    if config.include_globals && resolved.is_some() {
        let load = load_global_preferences(greprefs, &mut progress.warnings);
        match progress.apply(PrefSource::GlobalDefault, load, config.continue_on_error) {
            Err(e) => {
                return Err(e);
            },
            Ok(_) => {},
        }
    }
    if config.include_user {
        let path = join_path(profile_path, "prefs.js");
        let load = load_user_preferences(path.as_str(), prefs_js, &mut progress.warnings);
        match progress.apply(PrefSource::User, load, config.continue_on_error) {
            Err(e) => {
                return Err(e);
            },
            Ok(_) => {},
        }
    }
    Ok(
        MergedPreferences {
            entries: progress.map.into_entries(),
            install_path: resolved,
            profile_path: String::from_str(profile_path),
            loaded_sources: progress.loaded,
            warnings: progress.warnings,
        },
    )
}

/// Behind other entries, the last entry of a key is the last of that key
/// among the later entries, where they hold one.
proof fn last_with_key_of_tail(head: Seq<PrefEntryView>, tail: Seq<PrefEntryView>, key: Seq<char>)
    requires
        last_with_key(tail, key) is Some,
    ensures
        last_with_key(head + tail, key) == last_with_key(tail, key),
    decreases tail.len(),
{
    if tail.len() > 0 {
        assert((head + tail).drop_last() == head + tail.drop_last());
        assert((head + tail).last() == tail.last());
        if tail.last().key != key {
            last_with_key_of_tail(head, tail.drop_last(), key);
        }
    }
}

/// The last entry of a key among marked entries carries the mark.
proof fn last_with_key_is_stamped(
    entries: Seq<PrefEntryView>,
    source: PrefSource,
    file: Seq<char>,
    key: Seq<char>,
)
    ensures
        last_with_key(stamp_all(entries, source, file), key) matches Some(e) ==> e.source == Some(
            source,
        ) && e.source_file == Some(file),
    decreases entries.len(),
{
    let stamped = stamp_all(entries, source, file);
    if entries.len() > 0 {
        assert(stamped.drop_last() == stamp_all(entries.drop_last(), source, file));
        last_with_key_is_stamped(entries.drop_last(), source, file, key);
    }
}

/// Precedence: where the user tier is read and holds the key `key`, the
/// merged entry of `key` is the user tier's last entry of that key, marked
/// as a user preference, whatever the other tiers hold.
pub proof fn user_tier_takes_precedence(
    profile_path: Seq<char>,
    install_path: Option<Seq<char>>,
    config: MergeConfig,
    sources: MergeSourcesView,
    key: Seq<char>,
)
    requires
        config.include_user,
        user_load(joined(profile_path, "prefs.js"@), sources.prefs_js).0 is Ok,
        last_with_key(
            user_load(joined(profile_path, "prefs.js"@), sources.prefs_js).0->Ok_0,
            key,
        ) is Some,
        merge_spec(profile_path, install_path, config, sources) is Ok,
    ensures
        lookup(merge_spec(profile_path, install_path, config, sources)->Ok_0.entries, key)
            == last_with_key(
            user_load(joined(profile_path, "prefs.js"@), sources.prefs_js).0->Ok_0,
            key,
        ),
        lookup(
            merge_spec(profile_path, install_path, config, sources)->Ok_0.entries,
            key,
        )->Some_0.source == Some(PrefSource::User),
{
    let user = user_load(joined(profile_path, "prefs.js"@), sources.prefs_js).0->Ok_0;
    let state = merge_tiers(profile_path, install_path, config, sources)->Ok_0;
    let known = resolved_install(install_path, config, sources.located) is Some;
    let start = locate_step(install_path, config, sources.located)->Ok_0;
    let after_global = install_tiers(start, known, config, sources)->Ok_0;
    assert(state.entries == after_global.entries + user);
    last_with_key_of_tail(after_global.entries, user, key);
    overlay_holds_the_last(state.entries);
    match sources.prefs_js {
        Some(Ok(text)) => {
            last_with_key_is_stamped(parse_spec(text)->Ok_0, PrefSource::User, "prefs.js"@, key);
        },
        _ => {},
    }
}

/// The merged entries ascend strictly by key: each key stands once.
pub proof fn merged_entries_are_sorted(
    profile_path: Seq<char>,
    install_path: Option<Seq<char>>,
    config: MergeConfig,
    sources: MergeSourcesView,
)
    ensures
        merge_spec(profile_path, install_path, config, sources) matches Ok(merged)
            ==> crate::overlay::sorted_by_key(merged.entries),
{
    if let Ok(state) = merge_tiers(profile_path, install_path, config, sources) {
        overlay_holds_the_last(state.entries);
    }
}

/// A merge that goes on after errors never fails.
pub proof fn tolerant_merge_succeeds(
    profile_path: Seq<char>,
    install_path: Option<Seq<char>>,
    config: MergeConfig,
    sources: MergeSourcesView,
)
    requires
        config.continue_on_error,
    ensures
        merge_spec(profile_path, install_path, config, sources) is Ok,
{
}

/// Where no installation is given and none is found, a merge that goes on
/// after errors succeeds, warns that no installation was found, and does not
/// count the built-in tier as loaded.
pub proof fn merge_without_installation(
    profile_path: Seq<char>,
    config: MergeConfig,
    sources: MergeSourcesView,
)
    requires
        config.include_builtins,
        config.continue_on_error,
        sources.located == Ok::<Option<Seq<char>>, ErrorView>(None),
    ensures
        merge_spec(profile_path, None, config, sources) is Ok,
        merge_spec(profile_path, None, config, sources)->Ok_0.warnings.contains(
            "Firefox installation not found"@,
        ),
        !merge_spec(profile_path, None, config, sources)->Ok_0.loaded_sources.contains(
            PrefSource::BuiltIn,
        ),
{
    let merged = merge_spec(profile_path, None, config, sources)->Ok_0;
    let start = locate_step(None, config, sources.located)->Ok_0;
    assert(resolved_install(None, config, sources.located) is None);
    assert(start.warnings[0] == "Firefox installation not found"@);
    assert(install_tiers(start, false, config, sources) == Ok::<MergeState, ErrorView>(start));
    let load = user_load(joined(profile_path, "prefs.js"@), sources.prefs_js);
    let state = merge_tiers(profile_path, None, config, sources)->Ok_0;
    assert(state.warnings[0] == "Firefox installation not found"@);
    if config.include_user && load.0 is Ok {
        assert(state.loaded == seq![PrefSource::User]);
        assert forall|i: int| 0 <= i < state.loaded.len() implies state.loaded[i]
            != PrefSource::BuiltIn by {}
    } else {
        assert(state.loaded == Seq::<PrefSource>::empty());
    }
}

/// Where no installation is given, a tier that needs one is asked for and
/// none is found, a merge that does not go on after errors fails with a
/// typed error, whatever else it was given: that of the built-in tier where
/// that tier is asked for, else that of the global tier.
pub proof fn strict_merge_needs_installation(
    profile_path: Seq<char>,
    config: MergeConfig,
    sources: MergeSourcesView,
)
    requires
        config.include_builtins || config.include_globals,
        !config.continue_on_error,
        !(sources.located matches Ok(Some(_))),
    ensures
        merge_spec(profile_path, None, config, sources) == Err::<
            MergedPreferencesView,
            ErrorView,
        >(locate_abort(config, sources.located)),
        config.include_builtins ==> merge_spec(
            profile_path,
            None,
            config,
            sources,
        )->Err_0 is OmniJaError,
        !config.include_builtins ==> merge_spec(profile_path, None, config, sources)->Err_0
            == (ErrorView::PrefFileNotFound { file: "greprefs.js"@ }),
{
}

} // verus!
