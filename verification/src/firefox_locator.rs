//! Decides from what was found on disk where the browser is installed,
//! and in which version.

use crate::error::{join2, Error, ErrorView};
use crate::text::{
    chars_of, has_prefix, join_path, joined, lines, lines_of, row_views, slice_of, starts_with,
    string_of, trim, trimmed,
};
use crate::types::{opt_text, text_views, FirefoxInstallation, FirefoxInstallationView};
use vstd::prelude::*;
use vstd::string::StringExecFns;

verus! {

/// The first place from `from` on where `ch` stands, or the end.
pub open spec fn index_of(s: Seq<char>, ch: char, from: int) -> int
    decreases s.len() - from,
{
    if 0 <= from < s.len() && s[from] != ch {
        index_of(s, ch, from + 1)
    } else {
        from
    }
}

/// What stands between the first `=` of `line` and the next one, or the end.
pub open spec fn second_field(line: Seq<char>) -> Seq<char> {
    let first = index_of(line, '=', 0);
    if first >= line.len() {
        Seq::empty()
    } else {
        line.subrange(first + 1, index_of(line, '=', first + 1))
    }
}

/// The version that a line of an ini file gives: the line, trimmed, starts
/// with `Version=` or `Version =`, and the version is what follows up to a
/// further `=`, trimmed.
pub open spec fn version_in_line(line: Seq<char>) -> Option<Seq<char>> {
    let t = trimmed(line);
    if starts_with(t, "Version="@) || starts_with(t, "Version ="@) {
        Some(trimmed(second_field(t)))
    } else {
        None
    }
}

/// The version that the first line from `from` on with a version gives.
pub open spec fn first_version(rows: Seq<Seq<char>>, from: int) -> Option<Seq<char>>
    decreases rows.len() - from,
{
    if from < 0 || from >= rows.len() {
        None
    } else {
        match version_in_line(rows[from]) {
            Some(version) => Some(version),
            None => first_version(rows, from + 1),
        }
    }
}

/// The version that the ini text `content` gives.
pub open spec fn ini_version(content: Seq<char>) -> Option<Seq<char>> {
    first_version(lines_of(content), 0)
}

fn find_char(s: &Vec<char>, ch: char, from: usize) -> (at: usize)
    requires
        from <= s.len(),
    ensures
        at == index_of(s@, ch, from as int),
        from <= at <= s.len(),
{
    let mut at = from;
    while at < s.len() && s[at] != ch
        invariant
            from <= at <= s.len(),
            index_of(s@, ch, at as int) == index_of(s@, ch, from as int),
        decreases s.len() - at,
    {
        at += 1;
    }
    at
}

fn line_version(line: &Vec<char>) -> (out: Option<Vec<char>>)
    ensures
        match version_in_line(line@) {
            Some(version) => out is Some && out->Some_0@ == version,
            None => out is None,
        },
{
    let t = trim(line);
    if has_prefix(&t, &chars_of("Version=")) || has_prefix(&t, &chars_of("Version =")) {
        let first = find_char(&t, '=', 0);
        let field = if first >= t.len() {
            Vec::new()
        } else {
            let next = find_char(&t, '=', first + 1);
            slice_of(&t, first + 1, next)
        };
        Some(trim(&field))
    } else {
        None
    }
}

/// Reads the version from the text of an ini file: the first line that
/// reads `Version=...` gives it. `ini_path` names the file in the error.
pub fn extract_version_from_ini(ini_path: &str, content: &str) -> (out: Result<String, Error>)
    ensures
        match ini_version(content@) {
            Some(version) => out is Ok && out->Ok_0@ == version,
            None => out is Err && out->Err_0@ == (ErrorView::FirefoxNotFound {
                searched_paths: ini_path@ + " (no version found)"@,
            }),
        },
{
    let rows = lines(&chars_of(content));
    let ghost views = row_views(rows@);
    let mut i: usize = 0;
    while i < rows.len()
        invariant
            i <= rows.len(),
            views == row_views(rows@),
            views == lines_of(content@),
            first_version(views, i as int) == first_version(views, 0),
        decreases rows.len() - i,
    {
        assert(views[i as int] == rows@[i as int]@);
        match line_version(&rows[i]) {
            Some(version) => {
                return Ok(string_of(&version, 0, version.len()));
            },
            None => {},
        }
        i += 1;
    }
    Err(Error::FirefoxNotFound { searched_paths: join2(ini_path, " (no version found)") })
}

/// The version of the installation at `install_path`, read from the text of
/// its `application.ini` or else of its `platform.ini`; `None` says that the
/// file is not there.
pub open spec fn version_spec(
    install_path: Seq<char>,
    application_ini: Option<Seq<char>>,
    platform_ini: Option<Seq<char>>,
) -> Result<Seq<char>, ErrorView> {
    let (file, content) = match (application_ini, platform_ini) {
        (Some(text), _) => ("application.ini"@, Some(text)),
        (None, Some(text)) => ("platform.ini"@, Some(text)),
        (None, None) => ("platform.ini"@, None),
    };
    match content {
        None => Err(
            ErrorView::FirefoxNotFound {
                searched_paths: install_path + " (no version info found)"@,
            },
        ),
        Some(text) => match ini_version(text) {
            Some(version) => Ok(version),
            None => Err(
                ErrorView::FirefoxNotFound {
                    searched_paths: joined(install_path, file) + " (no version found)"@,
                },
            ),
        },
    }
}

/// The version of the installation at `install_path`.
pub fn get_firefox_version(
    install_path: &str,
    application_ini: Option<&str>,
    platform_ini: Option<&str>,
) -> (out: Result<String, Error>)
    ensures
        match version_spec(
            install_path@,
            match application_ini {
                Some(t) => Some(t@),
                None => None,
            },
            match platform_ini {
                Some(t) => Some(t@),
                None => None,
            },
        ) {
            Ok(version) => out is Ok && out->Ok_0@ == version,
            Err(e) => out is Err && out->Err_0@ == e,
        },
{
    match (application_ini, platform_ini) {
        (Some(text), _) => extract_version_from_ini(
            join_path(install_path, "application.ini").as_str(),
            text,
        ),
        (None, Some(text)) => extract_version_from_ini(
            join_path(install_path, "platform.ini").as_str(),
            text,
        ),
        (None, None) => Err(
            Error::FirefoxNotFound {
                searched_paths: join2(install_path, " (no version info found)"),
            },
        ),
    }
}

/// What was found at a place where an installation may be.
#[derive(Debug, PartialEq, Eq)]
pub struct InstallProbe {
    /// Whether the directory exists.
    pub exists: bool,
    /// Whether `browser/omni.ja` exists in it.
    pub browser_omni_ja: bool,
    /// Whether `omni.ja` exists in it.
    pub omni_ja: bool,
    /// Whether `greprefs.js` exists in it.
    pub greprefs: bool,
    /// Whether `browser/greprefs.js` exists in it.
    pub browser_greprefs: bool,
    /// The text of its `application.ini`, if it has one.
    pub application_ini: Option<String>,
    /// The text of its `platform.ini`, if it has one.
    pub platform_ini: Option<String>,
}

/// The installation at `path`, where `probe` shows one: the directory
/// exists and holds a resource bundle or a global defaults file. The version
/// is `unknown` where no ini file gives it.
pub open spec fn installation_at(path: Seq<char>, probe: InstallProbe) -> Result<
    FirefoxInstallationView,
    ErrorView,
> {
    if !probe.exists {
        Err(ErrorView::FirefoxNotFound { searched_paths: path })
    } else if !(probe.browser_omni_ja || probe.omni_ja || probe.greprefs
        || probe.browser_greprefs) {
        Err(
            ErrorView::FirefoxNotFound {
                searched_paths: path + " (no omni.ja or greprefs.js found)"@,
            },
        )
    } else {
        Ok(
            FirefoxInstallationView {
                version: match version_spec(
                    path,
                    opt_text(probe.application_ini),
                    opt_text(probe.platform_ini),
                ) {
                    Ok(version) => version,
                    Err(_) => "unknown"@,
                },
                path,
                has_greprefs: probe.greprefs || probe.browser_greprefs,
                has_omni_ja: probe.browser_omni_ja || probe.omni_ja,
            },
        )
    }
}

fn opt_str(text: &Option<String>) -> (out: Option<&str>)
    ensures
        match out {
            Some(t) => opt_text(*text) == Some(t@),
            None => opt_text(*text) is None,
        },
{
    match text {
        Some(t) => Some(t.as_str()),
        None => None,
    }
}

/// Decides whether `probe` shows an installation at `path`.
pub fn validate_installation(path: &str, probe: &InstallProbe) -> (out: Result<
    FirefoxInstallation,
    Error,
>)
    ensures
        match installation_at(path@, *probe) {
            Ok(install) => out is Ok && out->Ok_0@ == install,
            Err(e) => out is Err && out->Err_0@ == e,
        },
{
    if !probe.exists {
        return Err(Error::FirefoxNotFound { searched_paths: String::from_str(path) });
    }
    let has_omni_ja = probe.browser_omni_ja || probe.omni_ja;
    let has_greprefs = probe.greprefs || probe.browser_greprefs;
    if !has_omni_ja && !has_greprefs {
        return Err(
            Error::FirefoxNotFound {
                searched_paths: join2(path, " (no omni.ja or greprefs.js found)"),
            },
        );
    }
    let version = match get_firefox_version(
        path,
        opt_str(&probe.application_ini),
        opt_str(&probe.platform_ini),
    ) {
        Ok(version) => version,
        Err(_) => String::from_str("unknown"),
    };
    Ok(FirefoxInstallation { version, path: String::from_str(path), has_greprefs, has_omni_ja })
}

/// A place where an installation may be, with what was found there.
#[derive(Debug, PartialEq, Eq)]
pub struct Candidate {
    pub path: String,
    pub probe: InstallProbe,
}

/// The installations that the candidates from `from` on show, in order.
pub open spec fn installations_from(candidates: Seq<Candidate>, from: int) -> Seq<
    FirefoxInstallationView,
>
    decreases candidates.len() - from,
{
    if from < 0 || from >= candidates.len() {
        Seq::empty()
    } else {
        match installation_at(candidates[from].path@, candidates[from].probe) {
            Ok(install) => seq![install] + installations_from(candidates, from + 1),
            Err(_) => installations_from(candidates, from + 1),
        }
    }
}

/// The models of a sequence of installations, in order.
pub open spec fn installation_views(installs: Seq<FirefoxInstallation>) -> Seq<
    FirefoxInstallationView,
> {
    installs.map_values(|i: FirefoxInstallation| i@)
}

/// Every installation that the candidates show, in their order.
pub fn find_all_firefox_installations(candidates: &Vec<Candidate>) -> (out: Result<
    Vec<FirefoxInstallation>,
    Error,
>)
    ensures
        out is Ok,
        installation_views(out->Ok_0@) == installations_from(candidates@, 0),
{
    let mut found: Vec<FirefoxInstallation> = Vec::new();
    let mut i: usize = candidates.len();
    assert(installation_views(found@) == installations_from(candidates@, i as int));
    while i > 0
        invariant
            i <= candidates.len(),
            installation_views(found@) == installations_from(candidates@, i as int),
        decreases i,
    {
        i -= 1;
        match validate_installation(candidates[i].path.as_str(), &candidates[i].probe) {
            Ok(install) => {
                assert(installation_views(found@.insert(0, install)) == seq![install@]
                    + installation_views(found@));
                found.insert(0, install);
            },
            Err(_) => {},
        }
    }
    Ok(found)
}

/// The first installation that the candidates show, if any.
pub fn find_firefox_installation(candidates: &Vec<Candidate>) -> (out: Result<
    Option<FirefoxInstallation>,
    Error,
>)
    ensures
        out is Ok,
        match out->Ok_0 {
            Some(install) => installations_from(candidates@, 0).len() > 0 && install@
                == installations_from(candidates@, 0)[0],
            None => installations_from(candidates@, 0).len() == 0,
        },
{
    let mut i: usize = 0;
    while i < candidates.len()
        invariant
            i <= candidates.len(),
            installations_from(candidates@, i as int) == installations_from(candidates@, 0),
        decreases candidates.len() - i,
    {
        match validate_installation(candidates[i].path.as_str(), &candidates[i].probe) {
            Ok(install) => {
                return Ok(Some(install));
            },
            Err(_) => {},
        }
        i += 1;
    }
    Ok(None)
}

/// The operating systems whose usual places are known.
#[derive(Debug, Clone, Copy, PartialEq, Eq, Structural)]
pub enum Platform {
    Linux,
    MacOs,
    Windows,
    Other,
}

/// The usual places of an installation on `platform`.
pub open spec fn standard_search_paths_spec(platform: Platform) -> Seq<&'static str> {
    match platform {
        Platform::Linux => seq![
            "/usr/lib/firefox",
            "/usr/lib64/firefox",
            "/opt/firefox",
            "/usr/local/firefox",
            "/opt/firefox-beta",
            "/opt/firefox-esr",
        ],
        Platform::MacOs => seq![
            "/Applications/Firefox.app/Contents/Resources",
            "/Applications/Firefox Beta.app/Contents/Resources",
            "/Applications/Firefox Developer Edition.app/Contents/Resources",
            "/Applications/Firefox ESR.app/Contents/Resources",
        ],
        Platform::Windows => seq![
            "C:\\Program Files\\Mozilla Firefox",
            "C:\\Program Files\\Firefox Beta",
            "C:\\Program Files\\Firefox ESR",
            "C:\\Program Files\\Mozilla Firefox ESR",
            "C:\\Program Files (x86)\\Mozilla Firefox",
            "C:\\Program Files (x86)\\Firefox Beta",
            "C:\\Program Files (x86)\\Firefox ESR",
            "C:\\Program Files (x86)\\Mozilla Firefox ESR",
            "C:\\Program Files\\Mozilla Firefox Developer Edition",
        ],
        Platform::Other => Seq::empty(),
    }
}

/// Executable form of [`standard_search_paths_spec`].
pub fn standard_search_paths(platform: Platform) -> (out: Vec<&'static str>)
    ensures
        out@ == standard_search_paths_spec(platform),
{
    let out = match platform {
        Platform::Linux => vec![
            "/usr/lib/firefox",
            "/usr/lib64/firefox",
            "/opt/firefox",
            "/usr/local/firefox",
            "/opt/firefox-beta",
            "/opt/firefox-esr",
        ],
        Platform::MacOs => vec![
            "/Applications/Firefox.app/Contents/Resources",
            "/Applications/Firefox Beta.app/Contents/Resources",
            "/Applications/Firefox Developer Edition.app/Contents/Resources",
            "/Applications/Firefox ESR.app/Contents/Resources",
        ],
        Platform::Windows => vec![
            "C:\\Program Files\\Mozilla Firefox",
            "C:\\Program Files\\Firefox Beta",
            "C:\\Program Files\\Firefox ESR",
            "C:\\Program Files\\Mozilla Firefox ESR",
            "C:\\Program Files (x86)\\Mozilla Firefox",
            "C:\\Program Files (x86)\\Firefox Beta",
            "C:\\Program Files (x86)\\Firefox ESR",
            "C:\\Program Files (x86)\\Mozilla Firefox ESR",
            "C:\\Program Files\\Mozilla Firefox Developer Edition",
        ],
        Platform::Other => Vec::new(),
    };
    assert(out@ =~= standard_search_paths_spec(platform));
    out
}

/// The views of a sequence of string slices, in order.
pub open spec fn str_views(texts: Seq<&'static str>) -> Seq<Seq<char>> {
    texts.map_values(|t: &'static str| t@)
}

/// The places to look for an installation on `platform`: the usual ones,
/// then `extra`, the directories that the system's links point into.
pub fn get_all_search_paths(platform: Platform, extra: &Vec<String>) -> (out: Vec<String>)
    ensures
        text_views(out@) == str_views(standard_search_paths_spec(platform)) + text_views(extra@),
{
    let standard = standard_search_paths(platform);
    assert(standard@ == standard_search_paths_spec(platform));
    let mut out: Vec<String> = Vec::new();
    let mut i: usize = 0;
    assert(text_views(out@) == str_views(standard@).take(0));
    while i < standard.len()
        invariant
            i <= standard.len(),
            standard@ == standard_search_paths_spec(platform),
            text_views(out@) == str_views(standard@).take(i as int),
        decreases standard.len() - i,
    {
        let path = String::from_str(standard[i]);
        assert(str_views(standard@).take(i + 1) == str_views(standard@).take(i as int).push(
            path@,
        ));
        assert(text_views(out@.push(path)) == text_views(out@).push(path@));
        out.push(path);
        i += 1;
    }
    assert(str_views(standard@).take(standard.len() as int) == str_views(standard@));
    let mut k: usize = 0;
    assert(text_views(extra@).take(0) == Seq::<Seq<char>>::empty());
    assert(str_views(standard@) + Seq::<Seq<char>>::empty() == str_views(standard@));
    while k < extra.len()
        invariant
            k <= extra.len(),
            standard@ == standard_search_paths_spec(platform),
            text_views(out@) == str_views(standard@) + text_views(extra@).take(k as int),
        decreases extra.len() - k,
    {
        let path = extra[k].clone();
        assert(text_views(extra@).take(k + 1) == text_views(extra@).take(k as int).push(path@));
        assert(text_views(out@.push(path)) == text_views(out@).push(path@));
        assert((str_views(standard@) + text_views(extra@).take(k as int)).push(path@)
            == str_views(standard@) + text_views(extra@).take(k as int).push(path@));
        out.push(path);
        k += 1;
    }
    assert(text_views(extra@).take(extra.len() as int) == text_views(extra@));
    out
}

} // verus!
