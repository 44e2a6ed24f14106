//! Reads the profile index and finds the directory of a profile.
//!
//! The index is an ini file, read by the `configparser` crate; what this
//! module trusts of it is said at [`read_ini`].

use crate::error::{Error, ErrorView};
use crate::firefox_locator::Platform;
use crate::number::{digits_value, digits_value_push};
use crate::lexer::is_digit;
use crate::text::{
    chars_of, ends_with, has_prefix, has_suffix, join_path, joined, starts_with,
};
use crate::types::{opt_text, text_views};
use vstd::prelude::*;
use vstd::string::StringExecFns;

verus! {

/// A profile as the profile index lists it.
#[derive(Debug, PartialEq, Eq)]
pub struct FirefoxProfile {
    pub name: String,
    pub path: String,
    pub is_relative: bool,
    pub is_default: bool,
}

/// Mathematical model of a [`FirefoxProfile`].
pub struct FirefoxProfileView {
    pub name: Seq<char>,
    pub path: Seq<char>,
    pub is_relative: bool,
    pub is_default: bool,
}

impl View for FirefoxProfile {
    type V = FirefoxProfileView;

    open spec fn view(&self) -> FirefoxProfileView {
        FirefoxProfileView {
            name: self.name@,
            path: self.path@,
            is_relative: self.is_relative,
            is_default: self.is_default,
        }
    }
}

/// A profile as it is listed for a person.
#[derive(Debug, PartialEq, Eq)]
pub struct ProfileInfo {
    pub name: String,
    pub path: String,
    pub is_default: bool,
    pub is_relative: bool,
    /// The installation that has this profile as its default, if one has.
    pub locked_to_install: Option<String>,
}

/// Mathematical model of a [`ProfileInfo`].
pub struct ProfileInfoView {
    pub name: Seq<char>,
    pub path: Seq<char>,
    pub is_default: bool,
    pub is_relative: bool,
    pub locked_to_install: Option<Seq<char>>,
}

impl View for ProfileInfo {
    type V = ProfileInfoView;

    open spec fn view(&self) -> ProfileInfoView {
        ProfileInfoView {
            name: self.name@,
            path: self.path@,
            is_default: self.is_default,
            is_relative: self.is_relative,
            locked_to_install: opt_text(self.locked_to_install),
        }
    }
}

/// One line of an ini section: a key, and its value where the line gives one.
#[derive(Debug, PartialEq, Eq)]
pub struct IniEntry {
    pub key: String,
    pub value: Option<String>,
}

/// One section of an ini file.
#[derive(Debug, PartialEq, Eq)]
pub struct IniSection {
    pub name: String,
    pub entries: Vec<IniEntry>,
}

/// Mathematical model of an [`IniEntry`].
pub struct IniEntryView {
    pub key: Seq<char>,
    pub value: Option<Seq<char>>,
}

/// Mathematical model of an [`IniSection`].
pub struct IniSectionView {
    pub name: Seq<char>,
    pub entries: Seq<IniEntryView>,
}

impl View for IniEntry {
    type V = IniEntryView;

    open spec fn view(&self) -> IniEntryView {
        IniEntryView { key: self.key@, value: opt_text(self.value) }
    }
}

/// The models of a sequence of entries, in order.
pub open spec fn ini_entry_views(entries: Seq<IniEntry>) -> Seq<IniEntryView> {
    entries.map_values(|e: IniEntry| e@)
}

impl View for IniSection {
    type V = IniSectionView;

    open spec fn view(&self) -> IniSectionView {
        IniSectionView { name: self.name@, entries: ini_entry_views(self.entries@) }
    }
}

/// The models of a sequence of sections, in order.
pub open spec fn section_views(sections: Seq<IniSection>) -> Seq<IniSectionView> {
    sections.map_values(|s: IniSection| s@)
}

/// The tables that `Ini::read`, on a parser made by `Ini::new`, reads from the
/// text `text`: for each section, by its name in lower case, the value of
/// each key, by the key in lower case; or the parser's message where it
/// refuses the text.
pub uninterp spec fn ini_tables(text: Seq<char>) -> Result<
    Map<Seq<char>, Map<Seq<char>, Option<Seq<char>>>>,
    Seq<char>,
>;

/// Whether `entries` list the table `table`: each key once, with its value.
pub open spec fn entries_hold(entries: Seq<IniEntryView>, table: Map<Seq<char>, Option<Seq<char>>>)
    -> bool {
    &&& forall|i: int|
        0 <= i < entries.len() ==> table.dom().contains(#[trigger] entries[i].key)
            && table[entries[i].key] == entries[i].value
    &&& forall|key: Seq<char>|
        table.dom().contains(key) ==> exists|i: int|
            0 <= i < entries.len() && #[trigger] entries[i].key == key
    &&& forall|i: int, j: int|
        0 <= i < j < entries.len() ==> #[trigger] entries[i].key != #[trigger] entries[j].key
}

/// Whether `sections` list the tables `tables`: each section once, in any
/// order, with its entries in any order.
pub open spec fn sections_hold(
    sections: Seq<IniSectionView>,
    tables: Map<Seq<char>, Map<Seq<char>, Option<Seq<char>>>>,
) -> bool {
    &&& forall|i: int|
        0 <= i < sections.len() ==> tables.dom().contains(#[trigger] sections[i].name)
            && entries_hold(sections[i].entries, tables[sections[i].name])
    &&& forall|name: Seq<char>|
        tables.dom().contains(name) ==> exists|i: int|
            0 <= i < sections.len() && #[trigger] sections[i].name == name
    &&& forall|i: int, j: int|
        0 <= i < j < sections.len() ==> #[trigger] sections[i].name != #[trigger] sections[j].name
}

/// `Ini::new` and `Ini::read`: parses ini text, and hands out the tables it
/// read as lists. The order of the sections and of the entries is the order
/// in which the parser's hash maps are walked, which is not determined.
#[verifier::external_body]
fn read_ini(text: String) -> (out: Result<Vec<IniSection>, String>)
    ensures
        match ini_tables(text@) {
            Ok(tables) => out is Ok && sections_hold(section_views(out->Ok_0@), tables),
            Err(message) => out is Err && out->Err_0@ == message,
        },
{
    configparser::ini::Ini::new().read(text).map(
        |tables|
            tables.into_iter().map(
                |(name, table)|
                    IniSection {
                        name,
                        entries: table.into_iter().map(
                            |(key, value)| IniEntry { key, value },
                        ).collect(),
                    },
            ).collect(),
    )
}

/// The value of the first entry of `entries` from `from` on with the key
/// `key`, where that entry has one.
pub open spec fn value_of(entries: Seq<IniEntryView>, key: Seq<char>, from: int) -> Option<
    Seq<char>,
>
    decreases entries.len() - from,
{
    if from < 0 || from >= entries.len() {
        None
    } else if entries[from].key == key {
        entries[from].value
    } else {
        value_of(entries, key, from + 1)
    }
}

/// Whether every character of `text` is a decimal digit.
pub open spec fn all_digits(text: Seq<char>) -> bool {
    forall|i: int| 0 <= i < text.len() ==> is_digit(#[trigger] text[i])
}

/// The number that `text` writes as `u64::from_str` reads it: decimal digits,
/// at least one, after an optional `+`, that write no more than `u64::MAX`.
pub open spec fn parse_u64(text: Seq<char>) -> Option<u64> {
    let digits = if text.len() > 0 && text[0] == '+' {
        text.skip(1)
    } else {
        text
    };
    if digits.len() > 0 && all_digits(digits) && digits_value(digits) <= u64::MAX {
        Some(digits_value(digits) as u64)
    } else {
        None
    }
}

/// The number that the value of `key` writes, where it writes one.
pub open spec fn uint_of(entries: Seq<IniEntryView>, key: Seq<char>) -> Option<u64> {
    match value_of(entries, key, 0) {
        Some(text) => parse_u64(text),
        None => None,
    }
}

/// The text of an optional value, or the empty text.
pub open spec fn or_empty(value: Option<Seq<char>>) -> Seq<char> {
    match value {
        Some(text) => text,
        None => Seq::empty(),
    }
}

/// The profile that a section describes: a section whose name starts with
/// `profile` and which gives a name and a path. The path is relative unless
/// `isrelative` is a number other than 1, and the profile is the default
/// where `default` is 1.
pub open spec fn profile_of(section: IniSectionView) -> Option<FirefoxProfileView> {
    let name = or_empty(value_of(section.entries, "name"@, 0));
    let path = or_empty(value_of(section.entries, "path"@, 0));
    if starts_with(section.name, "profile"@) && name.len() > 0 && path.len() > 0 {
        Some(
            FirefoxProfileView {
                name,
                path,
                is_relative: match uint_of(section.entries, "isrelative"@) {
                    Some(n) => n == 1,
                    None => true,
                },
                is_default: uint_of(section.entries, "default"@) == Some(1u64),
            },
        )
    } else {
        None
    }
}

/// The profiles that `sections` describe, in the order of the sections.
pub open spec fn profiles_of(sections: Seq<IniSectionView>) -> Seq<FirefoxProfileView>
    decreases sections.len(),
{
    if sections.len() == 0 {
        Seq::empty()
    } else {
        let before = profiles_of(sections.drop_last());
        match profile_of(sections.last()) {
            Some(profile) => before.push(profile),
            None => before,
        }
    }
}

/// An installation's claim on a profile: the installation's hash, and the
/// path of the profile that is its default.
#[derive(Debug, PartialEq, Eq)]
pub struct InstallLock {
    pub hash: String,
    pub default_profile: String,
}

/// Mathematical model of an [`InstallLock`].
pub struct InstallLockView {
    pub hash: Seq<char>,
    pub default_profile: Seq<char>,
}

impl View for InstallLock {
    type V = InstallLockView;

    open spec fn view(&self) -> InstallLockView {
        InstallLockView { hash: self.hash@, default_profile: self.default_profile@ }
    }
}

/// The claim that a section makes: a section that is neither a profile nor
/// the general section, and that names a default profile.
pub open spec fn lock_of(section: IniSectionView) -> Option<InstallLockView> {
    if !starts_with(section.name, "profile"@) && section.name != "general"@ {
        match value_of(section.entries, "default"@, 0) {
            Some(path) => Some(InstallLockView { hash: section.name, default_profile: path }),
            None => None,
        }
    } else {
        None
    }
}

/// The claims that `sections` make, in the order of the sections.
pub open spec fn locks_of(sections: Seq<IniSectionView>) -> Seq<InstallLockView>
    decreases sections.len(),
{
    if sections.len() == 0 {
        Seq::empty()
    } else {
        let before = locks_of(sections.drop_last());
        match lock_of(sections.last()) {
            Some(lock) => before.push(lock),
            None => before,
        }
    }
}

/// The models of a sequence of profiles, in order.
pub open spec fn profile_views(profiles: Seq<FirefoxProfile>) -> Seq<FirefoxProfileView> {
    profiles.map_values(|p: FirefoxProfile| p@)
}

/// The models of a sequence of claims, in order.
pub open spec fn lock_views(locks: Seq<InstallLock>) -> Seq<InstallLockView> {
    locks.map_values(|l: InstallLock| l@)
}

/// The models of a sequence of listed profiles, in order.
pub open spec fn info_views(infos: Seq<ProfileInfo>) -> Seq<ProfileInfoView> {
    infos.map_values(|p: ProfileInfo| p@)
}

fn find_value<'a>(entries: &'a Vec<IniEntry>, key: &str) -> (out: Option<&'a String>)
    ensures
        match value_of(ini_entry_views(entries@), key@, 0) {
            Some(text) => out is Some && out->Some_0@ == text,
            None => out is None,
        },
{
    let ghost views = ini_entry_views(entries@);
    let mut i: usize = 0;
    while i < entries.len()
        invariant
            i <= entries.len(),
            views == ini_entry_views(entries@),
            value_of(views, key@, i as int) == value_of(views, key@, 0),
        decreases entries.len() - i,
    {
        assert(views[i as int] == entries@[i as int]@);
        if entries[i].key.as_str().eq(key) {
            return match &entries[i].value {
                Some(text) => Some(text),
                None => None,
            };
        }
        i += 1;
    }
    None
}

/// Reads a number as `u64::from_str` does.
pub fn read_u64(text: &str) -> (out: Option<u64>)
    ensures
        out == parse_u64(text@),
{
    let chars = chars_of(text);
    let start: usize = if chars.len() > 0 && chars[0] == '+' {
        1
    } else {
        0
    };
    let ghost digits = chars@.skip(start as int);
    assert(chars@.skip(0) == chars@);
    if chars.len() == start {
        return None;
    }
    let mut acc: u64 = 0;
    let mut i: usize = start;
    assert(digits.take(0) == Seq::<char>::empty());
    while i < chars.len()
        invariant
            start <= i <= chars.len(),
            chars@ == text@,
            digits == chars@.skip(start as int),
            digits.len() > 0,
            digits == (if text@.len() > 0 && text@[0] == '+' {
                text@.skip(1)
            } else {
                text@
            }),
            forall|k: int| 0 <= k < i - start ==> is_digit(#[trigger] digits[k]),
            acc == digits_value(digits.take(i - start)),
        decreases chars.len() - i,
    {
        let ch = chars[i];
        assert(digits[i - start] == ch);
        if !('0' <= ch && ch <= '9') {
            proof {
                let shown = if text@.len() > 0 && text@[0] == '+' {
                    text@.skip(1)
                } else {
                    text@
                };
                assert(shown.len() == chars.len() - start);
                assert(!is_digit(shown[i - start]));
                assert(!all_digits(shown));
            }
            return None;
        }
        let d: u64 = (ch as u32 - 48) as u64;
        proof {
            assert(digits.take(i - start + 1) == digits.take(i - start).push(ch));
            digits_value_push(digits.take(i - start), ch);
            assert(digits == digits.take(i - start + 1) + digits.skip(i - start + 1));
            crate::number::digits_value_grows(
                digits.take(i - start + 1),
                digits.skip(i - start + 1),
            );
        }
        if acc > (u64::MAX - d) / 10 {
            return None;
        }
        acc = acc * 10 + d;
        i += 1;
    }
    assert(digits.take(digits.len() as int) == digits);
    Some(acc)
}

fn find_uint(entries: &Vec<IniEntry>, key: &str) -> (out: Option<u64>)
    ensures
        out == uint_of(ini_entry_views(entries@), key@),
{
    match find_value(entries, key) {
        Some(text) => read_u64(text.as_str()),
        None => None,
    }
}

fn is_profile_section(name: &str) -> (yes: bool)
    ensures
        yes == starts_with(name@, "profile"@),
{
    has_prefix(&chars_of(name), &chars_of("profile"))
}

fn clone_or_empty(value: Option<&String>) -> (out: String)
    ensures
        out@ == (match value {
            Some(text) => text@,
            None => Seq::<char>::empty(),
        }),
{
    match value {
        Some(text) => text.clone(),
        None => String::new(),
    }
}

fn section_profile(section: &IniSection) -> (out: Option<FirefoxProfile>)
    ensures
        match profile_of(section@) {
            Some(profile) => out is Some && out->Some_0@ == profile,
            None => out is None,
        },
{
    if !is_profile_section(section.name.as_str()) {
        return None;
    }
    let name = clone_or_empty(find_value(&section.entries, "name"));
    let path = clone_or_empty(find_value(&section.entries, "path"));
    let name_len = chars_of(name.as_str()).len();
    let path_len = chars_of(path.as_str()).len();
    if name_len == 0 || path_len == 0 {
        return None;
    }
    let is_relative = match find_uint(&section.entries, "isrelative") {
        Some(n) => n == 1,
        None => true,
    };
    let is_default = match find_uint(&section.entries, "default") {
        Some(n) => n == 1,
        None => false,
    };
    Some(FirefoxProfile { name, path, is_relative, is_default })
}

/// The profiles that the sections of a profile index describe, in the
/// order of the sections.
pub fn profiles_in(sections: &Vec<IniSection>) -> (out: Vec<FirefoxProfile>)
    ensures
        profile_views(out@) == profiles_of(section_views(sections@)),
{
    let ghost views = section_views(sections@);
    let mut out: Vec<FirefoxProfile> = Vec::new();
    let mut i: usize = 0;
    assert(views.take(0) == Seq::<IniSectionView>::empty());
    assert(profile_views(out@) == Seq::<FirefoxProfileView>::empty());
    while i < sections.len()
        invariant
            i <= sections.len(),
            views == section_views(sections@),
            profile_views(out@) == profiles_of(views.take(i as int)),
        decreases sections.len() - i,
    {
        proof {
            assert(views.take(i + 1).drop_last() == views.take(i as int));
            assert(views.take(i + 1).last() == sections@[i as int]@);
        }
        match section_profile(&sections[i]) {
            Some(profile) => {
                assert(profile_views(out@.push(profile)) == profile_views(out@).push(profile@));
                out.push(profile);
            },
            None => {},
        }
        i += 1;
    }
    assert(views.take(sections.len() as int) == views);
    out
}

fn section_lock(section: &IniSection) -> (out: Option<InstallLock>)
    ensures
        match lock_of(section@) {
            Some(lock) => out is Some && out->Some_0@ == lock,
            None => out is None,
        },
{
    if is_profile_section(section.name.as_str()) || section.name.as_str().eq("general") {
        return None;
    }
    match find_value(&section.entries, "default") {
        Some(path) => Some(
            InstallLock { hash: section.name.clone(), default_profile: path.clone() },
        ),
        None => None,
    }
}

/// The claims of installations on profiles that the sections of a profile
/// index make, in the order of the sections.
pub fn installs_in(sections: &Vec<IniSection>) -> (out: Vec<InstallLock>)
    ensures
        lock_views(out@) == locks_of(section_views(sections@)),
{
    let ghost views = section_views(sections@);
    let mut out: Vec<InstallLock> = Vec::new();
    let mut i: usize = 0;
    assert(views.take(0) == Seq::<IniSectionView>::empty());
    assert(lock_views(out@) == Seq::<InstallLockView>::empty());
    while i < sections.len()
        invariant
            i <= sections.len(),
            views == section_views(sections@),
            lock_views(out@) == locks_of(views.take(i as int)),
        decreases sections.len() - i,
    {
        proof {
            assert(views.take(i + 1).drop_last() == views.take(i as int));
            assert(views.take(i + 1).last() == sections@[i as int]@);
        }
        match section_lock(&sections[i]) {
            Some(lock) => {
                assert(lock_views(out@.push(lock)) == lock_views(out@).push(lock@));
                out.push(lock);
            },
            None => {},
        }
        i += 1;
    }
    assert(views.take(sections.len() as int) == views);
    out
}

/// The hash of the first claim from `from` on for the profile at `path`.
pub open spec fn lock_on(locks: Seq<InstallLockView>, path: Seq<char>, from: int) -> Option<
    Seq<char>,
>
    decreases locks.len() - from,
{
    if from < 0 || from >= locks.len() {
        None
    } else if locks[from].default_profile == path {
        Some(locks[from].hash)
    } else {
        lock_on(locks, path, from + 1)
    }
}

/// The profile `profile` as it is listed, with the installation that claims it.
pub open spec fn listed(profile: FirefoxProfileView, locks: Seq<InstallLockView>)
    -> ProfileInfoView {
    ProfileInfoView {
        name: profile.name,
        path: profile.path,
        is_default: profile.is_default,
        is_relative: profile.is_relative,
        locked_to_install: lock_on(locks, profile.path, 0),
    }
}

/// The profiles `profiles` as they are listed.
pub open spec fn listing(profiles: Seq<FirefoxProfileView>, locks: Seq<InstallLockView>) -> Seq<
    ProfileInfoView,
> {
    profiles.map_values(|p: FirefoxProfileView| listed(p, locks))
}

fn find_lock(locks: &Vec<InstallLock>, path: &str) -> (out: Option<String>)
    ensures
        opt_text(out) == lock_on(lock_views(locks@), path@, 0),
{
    let ghost views = lock_views(locks@);
    let mut i: usize = 0;
    while i < locks.len()
        invariant
            i <= locks.len(),
            views == lock_views(locks@),
            lock_on(views, path@, i as int) == lock_on(views, path@, 0),
        decreases locks.len() - i,
    {
        assert(views[i as int] == locks@[i as int]@);
        if locks[i].default_profile.as_str().eq(path) {
            return Some(locks[i].hash.clone());
        }
        i += 1;
    }
    None
}

/// Lists the profiles with the installations that claim them.
pub fn profile_infos(profiles: Vec<FirefoxProfile>, locks: &Vec<InstallLock>) -> (out: Vec<
    ProfileInfo,
>)
    ensures
        info_views(out@) == listing(profile_views(profiles@), lock_views(locks@)),
{
    let ghost views = profile_views(profiles@);
    let ghost claims = lock_views(locks@);
    let mut out: Vec<ProfileInfo> = Vec::new();
    let mut i: usize = 0;
    while i < profiles.len()
        invariant
            i <= profiles.len(),
            views == profile_views(profiles@),
            claims == lock_views(locks@),
            info_views(out@) == listing(views.take(i as int), claims),
        decreases profiles.len() - i,
    {
        let p = &profiles[i];
        let info = ProfileInfo {
            name: p.name.clone(),
            path: p.path.clone(),
            is_default: p.is_default,
            is_relative: p.is_relative,
            locked_to_install: find_lock(locks, p.path.as_str()),
        };
        proof {
            assert(views[i as int] == p@);
            assert(views.take(i + 1) == views.take(i as int).push(p@));
            assert(info_views(out@.push(info)) == info_views(out@).push(info@));
            assert(listing(views.take(i as int).push(p@), claims) == listing(
                views.take(i as int),
                claims,
            ).push(listed(p@, claims)));
        }
        out.push(info);
        i += 1;
    }
    assert(views.take(profiles.len() as int) == views);
    out
}

/// Reads the profiles from the text of a profile index.
///
/// Fails exactly where the ini parser refuses the text, with its message.
/// The profiles come in the order in which the parser hands out the sections.
pub fn parse_profiles_ini(content: &str) -> (out: Result<Vec<FirefoxProfile>, Error>)
    ensures
        match ini_tables(content@) {
            Err(message) => out is Err && out->Err_0@ == ErrorView::ProfilesIniParse(message),
            Ok(tables) => out is Ok && exists|sections: Seq<IniSectionView>|
                sections_hold(sections, tables) && profile_views(out->Ok_0@) == #[trigger] profiles_of(
                    sections,
                ),
        },
{
    match read_ini(String::from_str(content)) {
        Err(message) => Err(Error::ProfilesIniParse(message)),
        Ok(sections) => Ok(profiles_in(&sections)),
    }
}

/// Reads the claims of installations on profiles from the text of a profile index.
///
/// Fails exactly where the ini parser refuses the text, with its message.
pub fn parse_installs_ini(content: &str) -> (out: Result<Vec<InstallLock>, Error>)
    ensures
        match ini_tables(content@) {
            Err(message) => out is Err && out->Err_0@ == ErrorView::ProfilesIniParse(message),
            Ok(tables) => out is Ok && exists|sections: Seq<IniSectionView>|
                sections_hold(sections, tables) && lock_views(out->Ok_0@) == #[trigger] locks_of(
                    sections,
                ),
        },
{
    match read_ini(String::from_str(content)) {
        Err(message) => Err(Error::ProfilesIniParse(message)),
        Ok(sections) => Ok(installs_in(&sections)),
    }
}

/// Lists the profiles of the profile index in `profiles_dir`, whose text is
/// `ini_content`; `None` says that the directory has no index.
pub fn list_profiles(profiles_dir: &str, ini_content: Option<&str>) -> (out: Result<
    Vec<ProfileInfo>,
    Error,
>)
    ensures
        match ini_content {
            None => out is Err && out->Err_0@ == ErrorView::InvalidProfileDirectory(profiles_dir@),
            Some(content) => match ini_tables(content@) {
                Err(message) => out is Err && out->Err_0@ == ErrorView::ProfilesIniParse(message),
                Ok(tables) => out is Ok && exists|sections: Seq<IniSectionView>|
                    sections_hold(sections, tables) && info_views(out->Ok_0@) == listing(
                        #[trigger] profiles_of(sections),
                        locks_of(sections),
                    ),
            },
        },
{
    let content = match ini_content {
        None => {
            return Err(Error::InvalidProfileDirectory(String::from_str(profiles_dir)));
        },
        Some(content) => content,
    };
    match read_ini(String::from_str(content)) {
        Err(message) => Err(Error::ProfilesIniParse(message)),
        Ok(sections) => {
            let profiles = profiles_in(&sections);
            let locks = installs_in(&sections);
            Ok(profile_infos(profiles, &locks))
        },
    }
}

/// The path of the preference file of the profile at `profile_path`.
pub fn get_prefs_path(profile_path: &str) -> (out: String)
    ensures
        out@ == joined(profile_path@, "prefs.js"@),
{
    join_path(profile_path, "prefs.js")
}

/// The directory that holds the profiles: below the home directory on
/// Linux and macOS, below the application data directory on Windows.
pub open spec fn profiles_directory(
    platform: Platform,
    home: Option<Seq<char>>,
    appdata: Option<Seq<char>>,
) -> Result<Seq<char>, ErrorView> {
    match platform {
        Platform::Linux => match home {
            Some(dir) => Ok(joined(dir, ".mozilla/firefox"@)),
            None => Err(
                ErrorView::InvalidProfileDirectory("HOME environment variable not set"@),
            ),
        },
        Platform::MacOs => match home {
            Some(dir) => Ok(joined(dir, "Library/Application Support/Firefox"@)),
            None => Err(
                ErrorView::InvalidProfileDirectory("HOME environment variable not set"@),
            ),
        },
        Platform::Windows => match appdata {
            Some(dir) => Ok(joined(dir, "Mozilla/Firefox"@)),
            None => Err(
                ErrorView::InvalidProfileDirectory("APPDATA environment variable not set"@),
            ),
        },
        Platform::Other => Err(ErrorView::InvalidProfileDirectory("Unsupported operating system"@)),
    }
}

/// The directory that holds the profiles on `platform`, given the home
/// directory and the application data directory where they are known.
pub fn get_profiles_directory(platform: Platform, home: Option<&str>, appdata: Option<&str>) -> (out:
    Result<String, Error>)
    ensures
        match profiles_directory(
            platform,
            match home {
                Some(t) => Some(t@),
                None => None,
            },
            match appdata {
                Some(t) => Some(t@),
                None => None,
            },
        ) {
            Ok(dir) => out is Ok && out->Ok_0@ == dir,
            Err(e) => out is Err && out->Err_0@ == e,
        },
{
    match platform {
        Platform::Linux => match home {
            Some(dir) => Ok(join_path(dir, ".mozilla/firefox")),
            None => Err(
                Error::InvalidProfileDirectory(
                    String::from_str("HOME environment variable not set"),
                ),
            ),
        },
        Platform::MacOs => match home {
            Some(dir) => Ok(join_path(dir, "Library/Application Support/Firefox")),
            None => Err(
                Error::InvalidProfileDirectory(
                    String::from_str("HOME environment variable not set"),
                ),
            ),
        },
        Platform::Windows => match appdata {
            Some(dir) => Ok(join_path(dir, "Mozilla/Firefox")),
            None => Err(
                Error::InvalidProfileDirectory(
                    String::from_str("APPDATA environment variable not set"),
                ),
            ),
        },
        Platform::Other => Err(
            Error::InvalidProfileDirectory(String::from_str("Unsupported operating system")),
        ),
    }
}

/// The first profile from `from` on with the name `name`.
pub open spec fn profile_named(profiles: Seq<FirefoxProfileView>, name: Seq<char>, from: int)
    -> Option<FirefoxProfileView>
    decreases profiles.len() - from,
{
    if from < 0 || from >= profiles.len() {
        None
    } else if profiles[from].name == name {
        Some(profiles[from])
    } else {
        profile_named(profiles, name, from + 1)
    }
}

/// Where the profile index says that the profile `name` lies: its path,
/// below `profiles_dir` where the path is relative.
pub open spec fn configured_path(
    profiles: Seq<FirefoxProfileView>,
    name: Seq<char>,
    profiles_dir: Seq<char>,
) -> Option<Seq<char>> {
    match profile_named(profiles, name, 0) {
        Some(profile) => Some(
            if profile.is_relative {
                joined(profiles_dir, profile.path)
            } else {
                profile.path
            },
        ),
        None => None,
    }
}

/// Where the profile index says that the profile `profile_name` lies. The
/// caller finds out whether a directory is there.
pub fn profile_candidate(profiles: &Vec<FirefoxProfile>, profile_name: &str, profiles_dir: &str)
    -> (out: Option<String>)
    ensures
        opt_text(out) == configured_path(profile_views(profiles@), profile_name@, profiles_dir@),
{
    let ghost views = profile_views(profiles@);
    let mut i: usize = 0;
    while i < profiles.len()
        invariant
            i <= profiles.len(),
            views == profile_views(profiles@),
            profile_named(views, profile_name@, i as int) == profile_named(
                views,
                profile_name@,
                0,
            ),
        decreases profiles.len() - i,
    {
        assert(views[i as int] == profiles@[i as int]@);
        if profiles[i].name.as_str().eq(profile_name) {
            return Some(
                if profiles[i].is_relative {
                    join_path(profiles_dir, profiles[i].path.as_str())
                } else {
                    profiles[i].path.clone()
                },
            );
        }
        i += 1;
    }
    None
}

/// Whether the directory `dir_name` is named as the profile `name` usually
/// is: with some prefix, a dot, and the name.
pub open spec fn is_named_for(dir_name: Seq<char>, name: Seq<char>) -> bool {
    ends_with(dir_name, seq!['.'] + name)
}

/// The first directory from `from` on that is named exactly `name`.
pub open spec fn exact_match(dirs: Seq<Seq<char>>, name: Seq<char>, from: int) -> Option<Seq<char>>
    decreases dirs.len() - from,
{
    if from < 0 || from >= dirs.len() {
        None
    } else if dirs[from] == name {
        Some(dirs[from])
    } else {
        exact_match(dirs, name, from + 1)
    }
}

/// The directories that are named for the profile `name`, in order.
pub open spec fn named_for(dirs: Seq<Seq<char>>, name: Seq<char>) -> Seq<Seq<char>>
    decreases dirs.len(),
{
    if dirs.len() == 0 {
        Seq::empty()
    } else {
        let before = named_for(dirs.drop_last(), name);
        if is_named_for(dirs.last(), name) {
            before.push(dirs.last())
        } else {
            before
        }
    }
}

/// The profile directory found by looking through the directories of
/// `profiles_dir`: one named exactly `name`, or else the only one that is
/// named for `name`. None, or several of the latter, is an error.
pub open spec fn scan_spec(dirs: Seq<Seq<char>>, profiles_dir: Seq<char>, name: Seq<char>)
    -> Result<Seq<char>, ErrorView> {
    match exact_match(dirs, name, 0) {
        Some(dir) => Ok(joined(profiles_dir, dir)),
        None => {
            let matches = named_for(dirs, name);
            if matches.len() == 1 {
                Ok(joined(profiles_dir, matches[0]))
            } else if matches.len() > 1 {
                Err(ErrorView::InvalidProfileDirectory(profiles_dir))
            } else {
                Err(ErrorView::ProfileNotFound { name, directory: profiles_dir })
            }
        },
    }
}

/// Looks for the profile `profile_name` among the directories of
/// `profiles_dir`, given by their names.
pub fn scan_profiles_directory(dir_names: &Vec<String>, profiles_dir: &str, profile_name: &str)
    -> (out: Result<String, Error>)
    ensures
        match scan_spec(text_views(dir_names@), profiles_dir@, profile_name@) {
            Ok(path) => out is Ok && out->Ok_0@ == path,
            Err(e) => out is Err && out->Err_0@ == e,
        },
{
    let ghost dirs = text_views(dir_names@);
    let name = chars_of(profile_name);
    let mut suffix: Vec<char> = vec!['.'];
    let mut k: usize = 0;
    while k < name.len()
        invariant
            k <= name.len(),
            suffix@ == seq!['.'] + name@.take(k as int),
        decreases name.len() - k,
    {
        assert(name@.take(k + 1) == name@.take(k as int).push(name@[k as int]));
        suffix.push(name[k]);
        k += 1;
    }
    assert(name@.take(name.len() as int) == name@);
    let mut i: usize = 0;
    while i < dir_names.len()
        invariant
            i <= dir_names.len(),
            dirs == text_views(dir_names@),
            name@ == profile_name@,
            exact_match(dirs, name@, i as int) == exact_match(dirs, name@, 0),
        decreases dir_names.len() - i,
    {
        assert(dirs[i as int] == dir_names@[i as int]@);
        if dir_names[i].as_str().eq(profile_name) {
            return Ok(join_path(profiles_dir, dir_names[i].as_str()));
        }
        i += 1;
    }
    let mut first: Option<usize> = None;
    let mut count: usize = 0;
    let mut j: usize = 0;
    assert(dirs.take(0) == Seq::<Seq<char>>::empty());
    while j < dir_names.len()
        invariant
            j <= dir_names.len(),
            dirs == text_views(dir_names@),
            name@ == profile_name@,
            suffix@ == seq!['.'] + name@,
            count == named_for(dirs.take(j as int), name@).len(),
            count <= j,
            exact_match(dirs, name@, 0) is None,
            count == 0 ==> first is None,
            count > 0 ==> first is Some && first->Some_0 < dir_names.len() && dirs[first->Some_0 as int]
                == named_for(dirs.take(j as int), name@)[0],
        decreases dir_names.len() - j,
    {
        proof {
            assert(dirs.take(j + 1).drop_last() == dirs.take(j as int));
            assert(dirs.take(j + 1).last() == dir_names@[j as int]@);
        }
        if has_suffix(&chars_of(dir_names[j].as_str()), &suffix) {
            if count == 0 {
                first = Some(j);
            }
            count += 1;
        }
        j += 1;
    }
    assert(dirs.take(dir_names.len() as int) == dirs);
    match first {
        Some(at) => if count == 1 {
            Ok(join_path(profiles_dir, dir_names[at].as_str()))
        } else {
            Err(Error::InvalidProfileDirectory(String::from_str(profiles_dir)))
        },
        None => Err(
            Error::ProfileNotFound {
                name: String::from_str(profile_name),
                directory: String::from_str(profiles_dir),
            },
        ),
    }
}

/// Finds the directory of the profile `profile_name`: the place that the
/// profile index names, where `configured` says that a directory is there,
/// or else what looking through the directories of `profiles_dir` gives.
pub fn find_profile_path(
    profile_name: &str,
    profiles_dir: &str,
    configured: Option<&str>,
    dir_names: &Vec<String>,
) -> (out: Result<String, Error>)
    ensures
        match configured {
            Some(path) => out is Ok && out->Ok_0@ == path@,
            None => match scan_spec(text_views(dir_names@), profiles_dir@, profile_name@) {
                Ok(path) => out is Ok && out->Ok_0@ == path,
                Err(e) => out is Err && out->Err_0@ == e,
            },
        },
{
    match configured {
        Some(path) => Ok(String::from_str(path)),
        None => scan_profiles_directory(dir_names, profiles_dir, profile_name),
    }
}

} // verus!
