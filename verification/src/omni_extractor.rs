//! Takes preference files out of the browser's resource bundle, a ZIP
//! archive, and decides which of its entries are taken.
//!
//! The archive is read by the `zip` crate; what this module trusts of it is
//! said at [`open_archive`] and the items around it.

use crate::error::{Error, ErrorView};
use crate::text::{
    chars_of, contains, decimal_string_u64, decimal_text, ends_with, has_part, has_prefix,
    has_suffix, join_path, joined, lines, lines_of, row_views, same_chars, slice_of, starts_with,
    string_of, trim, trimmed,
};
use crate::types::{opt_text, text_views};
use vstd::prelude::*;
use vstd::string::StringExecFns;

verus! {

/// The largest resource bundle that is read unless the configuration says otherwise: 100 MiB.
pub const DEFAULT_MAX_OMNI_SIZE: usize = 100 * 1024 * 1024;

/// The largest uncompressed size of an entry that is extracted: 10 MiB.
pub const MAX_ENTRY_SIZE: u64 = 10 * 1024 * 1024;

/// How a resource bundle is extracted.
#[derive(Debug, PartialEq, Eq)]
pub struct ExtractConfig {
    /// The largest bundle, in bytes, that is read.
    pub max_omni_size: usize,
    /// Where extracted files are kept, if the caller chooses the place.
    pub cache_dir: Option<String>,
    /// Which entries are extracted: exact names, or patterns that end in `*.js`.
    /// With no pattern every `.js` entry is extracted.
    pub target_files: Vec<String>,
    /// Whether to extract even where a usable cache exists.
    pub force_refresh: bool,
}

/// Mathematical model of an [`ExtractConfig`].
pub struct ExtractConfigView {
    pub max_omni_size: nat,
    pub cache_dir: Option<Seq<char>>,
    pub target_files: Seq<Seq<char>>,
    pub force_refresh: bool,
}

impl View for ExtractConfig {
    type V = ExtractConfigView;

    open spec fn view(&self) -> ExtractConfigView {
        ExtractConfigView {
            max_omni_size: self.max_omni_size as nat,
            cache_dir: opt_text(self.cache_dir),
            target_files: text_views(self.target_files@),
            force_refresh: self.force_refresh,
        }
    }
}

/// The configuration used where none is given: the default ceiling, no
/// cache directory of the caller's, no pattern, and no forced refresh.
pub open spec fn default_extract_config() -> ExtractConfigView {
    ExtractConfigView {
        max_omni_size: DEFAULT_MAX_OMNI_SIZE as nat,
        cache_dir: None,
        target_files: Seq::empty(),
        force_refresh: false,
    }
}

impl Default for ExtractConfig {
    fn default() -> (config: Self)
        ensures
            config@ == default_extract_config(),
    {
        let config = ExtractConfig {
            max_omni_size: DEFAULT_MAX_OMNI_SIZE,
            cache_dir: None,
            target_files: Vec::new(),
            force_refresh: false,
        };
        assert(text_views(config.target_files@) == Seq::<Seq<char>>::empty());
        config
    }
}

/// Whether an entry of this name could be written outside the directory it
/// is extracted to: it holds `..`, or starts with a slash or a backslash.
pub open spec fn is_unsafe_name(name: Seq<char>) -> bool {
    contains(name, seq!['.', '.']) || (name.len() > 0 && (name[0] == '/' || name[0] == '\\'))
}

/// Whether the target pattern `pattern` accepts the entry `name`: a pattern
/// that ends in `*.js` accepts the `.js` names that start with what stands
/// before the `*`; any other pattern accepts itself only.
pub open spec fn pattern_accepts(pattern: Seq<char>, name: Seq<char>) -> bool {
    if ends_with(pattern, seq!['*', '.', 'j', 's']) {
        starts_with(name, pattern.take(pattern.len() - 4)) && ends_with(name, seq!['.', 'j', 's'])
    } else {
        name == pattern
    }
}

/// Whether `name` is the global defaults file, at the top or in a directory.
pub open spec fn is_greprefs(name: Seq<char>) -> bool {
    name == "greprefs.js"@ || ends_with(name, "/greprefs.js"@)
}

/// Whether the entry `name` is wanted under the target patterns `targets`.
pub open spec fn should_extract_spec(name: Seq<char>, targets: Seq<Seq<char>>) -> bool {
    is_greprefs(name) || (if targets.len() == 0 {
        ends_with(name, seq!['.', 'j', 's'])
    } else {
        exists|i: int| 0 <= i < targets.len() && pattern_accepts(#[trigger] targets[i], name)
    })
}

/// What the archive's directory says of one entry.
#[derive(Debug, PartialEq, Eq)]
pub struct EntryHeader {
    pub name: String,
    /// The size of the entry's data when uncompressed, in bytes.
    pub size: u64,
    /// The size of the entry's data as stored, in bytes.
    pub compressed_size: u64,
}

/// Mathematical model of an [`EntryHeader`].
pub struct EntryHeaderView {
    pub name: Seq<char>,
    pub size: nat,
    pub compressed_size: nat,
}

impl View for EntryHeader {
    type V = EntryHeaderView;

    open spec fn view(&self) -> EntryHeaderView {
        EntryHeaderView {
            name: self.name@,
            size: self.size as nat,
            compressed_size: self.compressed_size as nat,
        }
    }
}

impl EntryHeaderView {
    /// Whether the entry is extracted under `targets`: its name is safe and
    /// wanted, and its data is no larger than [`MAX_ENTRY_SIZE`] when uncompressed.
    pub open spec fn is_selected(self, targets: Seq<Seq<char>>) -> bool {
        &&& !is_unsafe_name(self.name)
        &&& should_extract_spec(self.name, targets)
        &&& self.size <= MAX_ENTRY_SIZE
    }
}

fn js_suffix() -> (out: Vec<char>)
    ensures
        out@ == seq!['.', 'j', 's'],
{
    vec!['.', 'j', 's']
}

/// Executable form of [`is_unsafe_name`].
pub fn unsafe_name(name: &str) -> (yes: bool)
    ensures
        yes == is_unsafe_name(name@),
{
    let chars = chars_of(name);
    let dots: Vec<char> = vec!['.', '.'];
    has_part(&chars, &dots) || (chars.len() > 0 && (chars[0] == '/' || chars[0] == '\\'))
}

fn accepts(pattern: &Vec<char>, name: &Vec<char>) -> (yes: bool)
    ensures
        yes == pattern_accepts(pattern@, name@),
{
    let star: Vec<char> = vec!['*', '.', 'j', 's'];
    if has_suffix(pattern, &star) {
        let mut prefix: Vec<char> = Vec::new();
        let mut i: usize = 0;
        while i < pattern.len() - 4
            invariant
                pattern.len() >= 4,
                i <= pattern.len() - 4,
                prefix@ == pattern@.take(i as int),
            decreases pattern.len() - i,
        {
            assert(pattern@.take(i + 1) == pattern@.take(i as int).push(pattern@[i as int]));
            prefix.push(pattern[i]);
            i += 1;
        }
        has_prefix(name, &prefix) && has_suffix(name, &js_suffix())
    } else {
        same_chars(name, pattern)
    }
}

/// Executable form of [`should_extract_spec`].
pub fn should_extract_under(name: &str, targets: &Vec<String>) -> (yes: bool)
    ensures
        yes == should_extract_spec(name@, text_views(targets@)),
{
    let chars = chars_of(name);
    let top = chars_of("greprefs.js");
    let nested = chars_of("/greprefs.js");
    if same_chars(&chars, &top) || has_suffix(&chars, &nested) {
        return true;
    }
    if targets.len() == 0 {
        return has_suffix(&chars, &js_suffix());
    }
    let ghost views = text_views(targets@);
    let mut i: usize = 0;
    while i < targets.len()
        invariant
            i <= targets.len(),
            chars@ == name@,
            views == text_views(targets@),
            forall|k: int| 0 <= k < i ==> !pattern_accepts(#[trigger] views[k], chars@),
        decreases targets.len() - i,
    {
        let pattern = chars_of(targets[i].as_str());
        assert(views[i as int] == targets@[i as int]@);
        if accepts(&pattern, &chars) {
            assert(0 <= i < views.len() && pattern_accepts(views[i as int], name@));
            return true;
        }
        i += 1;
    }
    false
}

impl EntryHeader {
    /// Whether the entry is extracted under `targets`.
    pub fn selected(&self, targets: &Vec<String>) -> (yes: bool)
        ensures
            yes == self@.is_selected(text_views(targets@)),
    {
        if unsafe_name(self.name.as_str()) {
            return false;
        }
        if !should_extract_under(self.name.as_str(), targets) {
            return false;
        }
        self.size <= MAX_ENTRY_SIZE
    }
}

/// An entry whose name is unsafe is never extracted, whatever the patterns.
pub proof fn unsafe_names_are_never_selected(header: EntryHeaderView, targets: Seq<Seq<char>>)
    requires
        is_unsafe_name(header.name),
    ensures
        !header.is_selected(targets),
{
}

/// The global defaults file is wanted whatever the patterns.
pub proof fn greprefs_is_always_wanted(targets: Seq<Seq<char>>)
    ensures
        should_extract_spec("greprefs.js"@, targets),
{
}

/// An archive of the `zip` crate, opened for reading.
#[verifier::external_type_specification]
#[verifier::external_body]
#[verifier::reject_recursive_types(R)]
pub struct ExZipArchive<R>(zip::read::ZipArchive<R>);

/// A reader over bytes in memory.
#[verifier::external_type_specification]
#[verifier::external_body]
#[verifier::reject_recursive_types(T)]
pub struct ExCursor<T>(std::io::Cursor<T>);

/// The `zip` crate's error.
#[verifier::external_type_specification]
#[verifier::external_body]
pub struct ExZipError(zip::result::ZipError);

/// The number of entries that `ZipArchive::new` finds in the archive
/// `bytes`, or the text of its error where it refuses the bytes.
pub uninterp spec fn zip_entry_count(bytes: Seq<u8>) -> Result<nat, Seq<char>>;

/// What `ZipArchive::by_index_decrypt`, given the empty password, reports of
/// entry `index` of the archive `bytes`, or the text of the error where it
/// fails or tells that the password is wrong.
pub uninterp spec fn zip_header(bytes: Seq<u8>, index: nat) -> Result<EntryHeaderView, Seq<char>>;

/// The uncompressed data that reading entry `index` of the archive `bytes`
/// to its end gives, or the text of the error where opening or reading the
/// entry fails.
pub uninterp spec fn zip_content(bytes: Seq<u8>, index: nat) -> Result<Seq<u8>, Seq<char>>;

/// The outcome of opening an archive that holds `count` entries.
pub open spec fn entries_counted(count: usize) -> Result<nat, Seq<char>> {
    Ok(count as nat)
}

/// The text that `Display` writes for a `ZipError`.
pub uninterp spec fn zip_error_message(e: zip::result::ZipError) -> Seq<char>;

/// The bytes that an open archive reads from.
pub uninterp spec fn archive_source(
    archive: zip::read::ZipArchive<std::io::Cursor<Vec<u8>>>,
) -> Seq<u8>;

/// `ZipArchive::new` on a cursor over `bytes`: reads the archive's directory.
/// The archive keeps the bytes, and opens exactly when the directory can be
/// read; the same bytes fail with the same error.
#[verifier::external_body]
fn open_archive(bytes: Vec<u8>) -> (out: Result<
    zip::read::ZipArchive<std::io::Cursor<Vec<u8>>>,
    zip::result::ZipError,
>)
    ensures
        match out {
            Ok(archive) => zip_entry_count(bytes@) is Ok && archive_source(archive) == bytes@,
            Err(e) => zip_entry_count(bytes@) is Err && zip_entry_count(bytes@)->Err_0
                == zip_error_message(e),
        },
{
    zip::read::ZipArchive::new(std::io::Cursor::new(bytes))
}

/// `ZipArchive::len`: the number of entries in the archive's directory.
#[verifier::external_body]
fn archive_len(archive: &zip::read::ZipArchive<std::io::Cursor<Vec<u8>>>) -> (count: usize)
    ensures
        zip_entry_count(archive_source(*archive)) == entries_counted(count),
{
    archive.len()
}

/// `ZipArchive::by_index_decrypt` with the empty password, then
/// `ZipFile::name`, `size` and `compressed_size`: the directory's record of
/// one entry. Where the crate tells that the empty password is wrong, the
/// error is the crate's own for a missing password. (An entry encrypted with
/// the old ZIP cipher can accept the empty password by chance; its record is
/// then handed out like any other.) The same bytes and index give the same
/// outcome, and the archive's bytes stay as they are.
#[verifier::external_body]
fn entry_header(archive: &mut zip::read::ZipArchive<std::io::Cursor<Vec<u8>>>, index: usize) -> (out:
    Result<EntryHeader, zip::result::ZipError>)
    ensures
        archive_source(*final(archive)) == archive_source(*old(archive)),
        match out {
            Ok(header) => zip_header(archive_source(*old(archive)), index as nat) is Ok
                && zip_header(archive_source(*old(archive)), index as nat)->Ok_0 == header@,
            Err(e) => zip_header(archive_source(*old(archive)), index as nat) is Err
                && zip_header(archive_source(*old(archive)), index as nat)->Err_0
                == zip_error_message(e),
        },
{
    match archive.by_index_decrypt(index, &[]) {
        Ok(Ok(file)) => Ok(
            EntryHeader {
                name: file.name().to_string(),
                size: file.size(),
                compressed_size: file.compressed_size(),
            },
        ),
        Ok(Err(_)) => Err(
            zip::result::ZipError::UnsupportedArchive(zip::result::ZipError::PASSWORD_REQUIRED),
        ),
        Err(e) => Err(e),
    }
}

/// `ZipArchive::by_index_decrypt` with the empty password, then
/// `Read::read_to_end` on the entry: its uncompressed data, or the error of
/// the step that failed. The same bytes and index give the same outcome,
/// and the archive's bytes stay as they are.
#[verifier::external_body]
fn entry_content(archive: &mut zip::read::ZipArchive<std::io::Cursor<Vec<u8>>>, index: usize) -> (out:
    Result<Vec<u8>, zip::result::ZipError>)
    ensures
        archive_source(*final(archive)) == archive_source(*old(archive)),
        match out {
            Ok(data) => zip_content(archive_source(*old(archive)), index as nat) is Ok
                && zip_content(archive_source(*old(archive)), index as nat)->Ok_0 == data@,
            Err(e) => zip_content(archive_source(*old(archive)), index as nat) is Err
                && zip_content(archive_source(*old(archive)), index as nat)->Err_0
                == zip_error_message(e),
        },
{
    let mut data = Vec::new();
    match archive.by_index_decrypt(index, &[]) {
        Ok(Ok(mut file)) => match std::io::Read::read_to_end(&mut file, &mut data) {
            Ok(_) => Ok(data),
            Err(e) => Err(zip::result::ZipError::Io(e)),
        },
        Ok(Err(_)) => Err(
            zip::result::ZipError::UnsupportedArchive(zip::result::ZipError::PASSWORD_REQUIRED),
        ),
        Err(e) => Err(e),
    }
}

/// `ToString::to_string` on a `ZipError`: the text that `Display` writes for it.
#[verifier::external_body]
fn zip_error_text(e: &zip::result::ZipError) -> (text: String)
    ensures
        text@ == zip_error_message(*e),
{
    e.to_string()
}

/// An entry taken out of an archive: its name and its uncompressed data.
#[derive(Debug, PartialEq, Eq)]
pub struct ExtractedFile {
    pub name: String,
    pub data: Vec<u8>,
}

/// Mathematical model of an [`ExtractedFile`].
pub struct ExtractedFileView {
    pub name: Seq<char>,
    pub data: Seq<u8>,
}

impl View for ExtractedFile {
    type V = ExtractedFileView;

    open spec fn view(&self) -> ExtractedFileView {
        ExtractedFileView { name: self.name@, data: self.data@ }
    }
}

/// The models of a sequence of extracted files, in order.
pub open spec fn file_views(files: Seq<ExtractedFile>) -> Seq<ExtractedFileView> {
    files.map_values(|f: ExtractedFile| f@)
}

/// What one entry of an archive contributes to an extraction.
pub enum EntryOutcome {
    /// The entry cannot be read: the extraction fails, with this message.
    Broken(Seq<char>),
    /// The entry is left out.
    Skipped,
    /// The entry is extracted.
    Taken(ExtractedFileView),
}

/// What entry `index` of the archive `bytes` contributes under `targets`.
pub open spec fn entry_outcome(bytes: Seq<u8>, index: nat, targets: Seq<Seq<char>>) -> EntryOutcome {
    match zip_header(bytes, index) {
        Err(message) => EntryOutcome::Broken(message),
        Ok(header) => if !header.is_selected(targets) {
            EntryOutcome::Skipped
        } else {
            match zip_content(bytes, index) {
                Err(message) => EntryOutcome::Broken(message),
                Ok(data) => EntryOutcome::Taken(ExtractedFileView { name: header.name, data }),
            }
        },
    }
}

/// The files that the entries `from..count` of the archive `bytes` give under
/// `targets`, in the archive's order, or the message of the first of them
/// that cannot be read.
pub open spec fn extracted_from(bytes: Seq<u8>, from: nat, count: nat, targets: Seq<Seq<char>>)
    -> Result<Seq<ExtractedFileView>, Seq<char>>
    decreases count - from,
{
    if from >= count {
        Ok(Seq::empty())
    } else {
        match entry_outcome(bytes, from, targets) {
            EntryOutcome::Broken(message) => Err(message),
            EntryOutcome::Skipped => extracted_from(bytes, from + 1, count, targets),
            EntryOutcome::Taken(file) => match extracted_from(bytes, from + 1, count, targets) {
                Err(message) => Err(message),
                Ok(rest) => Ok(seq![file] + rest),
            },
        }
    }
}

/// The files that the archive `bytes` gives under `targets`, or the message
/// of the archive reader where the archive, or else the first of its
/// entries that is looked at, cannot be read.
pub open spec fn extraction(bytes: Seq<u8>, targets: Seq<Seq<char>>) -> Result<
    Seq<ExtractedFileView>,
    Seq<char>,
> {
    match zip_entry_count(bytes) {
        Err(message) => Err(message),
        Ok(count) => extracted_from(bytes, 0, count, targets),
    }
}

/// `files` before what `rest` gives, or the message of `rest`.
pub open spec fn files_then(
    files: Seq<ExtractedFileView>,
    rest: Result<Seq<ExtractedFileView>, Seq<char>>,
) -> Result<Seq<ExtractedFileView>, Seq<char>> {
    match rest {
        Ok(more) => Ok(files + more),
        Err(message) => Err(message),
    }
}

/// `names` before what `rest` gives, or the message of `rest`.
pub open spec fn names_then(names: Seq<Seq<char>>, rest: Result<Seq<Seq<char>>, Seq<char>>)
    -> Result<Seq<Seq<char>>, Seq<char>> {
    match rest {
        Ok(more) => Ok(names + more),
        Err(message) => Err(message),
    }
}

/// Of the entries from `from` on, none with an unsafe name is extracted.
pub proof fn extraction_is_safe(bytes: Seq<u8>, from: nat, count: nat, targets: Seq<Seq<char>>)
    ensures
        extracted_from(bytes, from, count, targets) matches Ok(files) ==> forall|i: int|
            0 <= i < files.len() ==> !is_unsafe_name(#[trigger] files[i].name),
    decreases count - from,
{
    if from < count {
        extraction_is_safe(bytes, from + 1, count, targets);
    }
}

/// Path-traversal immunity: no extracted file has an unsafe name, whatever
/// the archive holds and whatever the patterns are.
pub proof fn no_unsafe_name_is_extracted(bytes: Seq<u8>, targets: Seq<Seq<char>>)
    ensures
        extraction(bytes, targets) matches Ok(files) ==> forall|i: int|
            0 <= i < files.len() ==> !is_unsafe_name(#[trigger] files[i].name),
{
    if let Ok(count) = zip_entry_count(bytes) {
        extraction_is_safe(bytes, 0, count, targets);
    }
}

/// The extraction failed with the archive reader's message.
fn extraction_failed(e: &zip::result::ZipError) -> (out: Error)
    ensures
        out@ == ErrorView::ExtractionFailed(zip_error_message(*e)),
{
    Error::ExtractionFailed(zip_error_text(e))
}

/// Reads the archive `bytes` and takes out the entries that `targets` select.
///
/// Fails with `ExtractionFailed` exactly where the archive or one of its
/// entries cannot be read, with the archive reader's message for the first
/// that cannot.
pub fn extract_entries(bytes: Vec<u8>, targets: &Vec<String>) -> (out: Result<
    Vec<ExtractedFile>,
    Error,
>)
    ensures
        match extraction(bytes@, text_views(targets@)) {
            Ok(files) => out is Ok && file_views(out->Ok_0@) == files,
            Err(message) => out is Err && out->Err_0@ == ErrorView::ExtractionFailed(message),
        },
        out matches Ok(files) ==> forall|i: int|
            0 <= i < files.len() ==> !is_unsafe_name(#[trigger] files[i].name@),
{
    let ghost source = bytes@;
    let ghost wanted = text_views(targets@);
    let mut archive = match open_archive(bytes) {
        Ok(archive) => archive,
        Err(e) => {
            return Err(extraction_failed(&e));
        },
    };
    let count = archive_len(&archive);
    let mut files: Vec<ExtractedFile> = Vec::new();
    let mut index: usize = 0;
    assert(file_views(files@) == Seq::<ExtractedFileView>::empty());
    while index < count
        invariant
            index <= count,
            source == bytes@,
            archive_source(archive) == source,
            zip_entry_count(source) == Ok::<nat, Seq<char>>(count as nat),
            wanted == text_views(targets@),
            extraction(source, wanted) == files_then(
                file_views(files@),
                extracted_from(source, index as nat, count as nat, wanted),
            ),
            forall|i: int| 0 <= i < files.len() ==> !is_unsafe_name(#[trigger] files[i].name@),
        decreases count - index,
    {
        let ghost done = file_views(files@);
        let header = match entry_header(&mut archive, index) {
            Ok(header) => header,
            Err(e) => {
                return Err(extraction_failed(&e));
            },
        };
        if header.selected(targets) {
            let data = match entry_content(&mut archive, index) {
                Ok(data) => data,
                Err(e) => {
                    return Err(extraction_failed(&e));
                },
            };
            let file = ExtractedFile { name: header.name, data };
            proof {
                assert(file_views(files@.push(file)) == done.push(file@));
                if let Ok(rest) = extracted_from(source, (index + 1) as nat, count as nat, wanted) {
                    assert(done.push(file@) + rest == done + (seq![file@] + rest));
                }
            }
            files.push(file);
        }
        index += 1;
    }
    assert(file_views(files@) + Seq::<ExtractedFileView>::empty() == file_views(files@));
    Ok(files)
}

/// The names of the entries `from..count` of the archive `bytes` that end in
/// `.js`, in the archive's order, or the message of the first of them that
/// cannot be read.
pub open spec fn js_names_from(bytes: Seq<u8>, from: nat, count: nat) -> Result<
    Seq<Seq<char>>,
    Seq<char>,
>
    decreases count - from,
{
    if from >= count {
        Ok(Seq::empty())
    } else {
        match zip_header(bytes, from) {
            Err(message) => Err(message),
            Ok(header) => names_then(
                if ends_with(header.name, seq!['.', 'j', 's']) {
                    seq![header.name]
                } else {
                    Seq::empty()
                },
                js_names_from(bytes, from + 1, count),
            ),
        }
    }
}

/// The names of the `.js` entries of the archive `bytes`, or the message of
/// the archive reader where the archive or one of its entries cannot be read.
pub open spec fn js_names(bytes: Seq<u8>) -> Result<Seq<Seq<char>>, Seq<char>> {
    match zip_entry_count(bytes) {
        Err(message) => Err(message),
        Ok(count) => js_names_from(bytes, 0, count),
    }
}

/// Lists the entries of the archive `bytes` whose names end in `.js`.
///
/// Fails with `ExtractionFailed` exactly where the archive or one of its
/// entries cannot be read, with the archive reader's message for the first
/// that cannot.
pub fn list_js_entries(bytes: Vec<u8>) -> (out: Result<Vec<String>, Error>)
    ensures
        match js_names(bytes@) {
            Ok(names) => out is Ok && text_views(out->Ok_0@) == names,
            Err(message) => out is Err && out->Err_0@ == ErrorView::ExtractionFailed(message),
        },
{
    let ghost source = bytes@;
    let mut archive = match open_archive(bytes) {
        Ok(archive) => archive,
        Err(e) => {
            return Err(extraction_failed(&e));
        },
    };
    let count = archive_len(&archive);
    let mut names: Vec<String> = Vec::new();
    let mut index: usize = 0;
    assert(text_views(names@) == Seq::<Seq<char>>::empty());
    while index < count
        invariant
            index <= count,
            source == bytes@,
            archive_source(archive) == source,
            zip_entry_count(source) == Ok::<nat, Seq<char>>(count as nat),
            js_names(source) == names_then(
                text_views(names@),
                js_names_from(source, index as nat, count as nat),
            ),
        decreases count - index,
    {
        let ghost done = text_views(names@);
        let header = match entry_header(&mut archive, index) {
            Ok(header) => header,
            Err(e) => {
                return Err(extraction_failed(&e));
            },
        };
        if has_suffix(&chars_of(header.name.as_str()), &js_suffix()) {
            proof {
                assert(text_views(names@.push(header.name)) == done.push(header.name@));
                if let Ok(rest) = js_names_from(source, (index + 1) as nat, count as nat) {
                    assert(done.push(header.name@) + rest == done + (seq![header.name@] + rest));
                }
            }
            names.push(header.name);
        } else {
            proof {
                if let Ok(rest) = js_names_from(source, (index + 1) as nat, count as nat) {
                    assert(Seq::<Seq<char>>::empty() + rest == rest);
                }
            }
        }
        index += 1;
    }
    assert(text_views(names@) + Seq::<Seq<char>>::empty() == text_views(names@));
    Ok(names)
}

/// What is known of the cache directory: when it was last modified, where
/// the file system tells, and the `.js` files found in it.
#[derive(Debug, PartialEq, Eq)]
pub struct CacheState {
    pub modified: Option<u128>,
    pub js_files: Vec<String>,
}

/// Why a cache cannot be used, or `None` where it can: it must exist, be no
/// older than the archive where both times are known, and hold a file.
pub open spec fn cache_fault(
    cache: Option<CacheState>,
    archive_modified: Option<u128>,
) -> Option<Seq<char>> {
    match cache {
        None => Some("Cache not found"@),
        Some(state) => if state.modified is Some && archive_modified is Some
            && state.modified->Some_0 < archive_modified->Some_0 {
            Some("Cache is stale"@)
        } else if state.js_files.len() == 0 {
            Some("No cached files"@)
        } else {
            None
        },
    }
}

/// Which of the unpacked files has the extension `js`: its name ends in
/// `.js`, with at least one character of the file's own name before it.
pub open spec fn has_js_extension(path: Seq<char>) -> bool {
    ends_with(path, seq!['.', 'j', 's']) && path.len() >= 4 && path[path.len() - 4] != '/'
}

/// Executable form of [`has_js_extension`].
pub fn js_extension(path: &str) -> (yes: bool)
    ensures
        yes == has_js_extension(path@),
{
    let chars = chars_of(path);
    has_suffix(&chars, &js_suffix()) && chars.len() >= 4 && chars[chars.len() - 4] != '/'
}

/// Of the `.js` files among `paths`, those that `targets` want (`wanted`) or
/// those that they do not, in the order of `paths`.
pub open spec fn unpacked_part(paths: Seq<Seq<char>>, targets: Seq<Seq<char>>, wanted: bool) -> Seq<
    Seq<char>,
>
    decreases paths.len(),
{
    if paths.len() == 0 {
        Seq::empty()
    } else {
        let before = unpacked_part(paths.drop_last(), targets, wanted);
        if has_js_extension(paths.last()) && should_extract_spec(paths.last(), targets) == wanted {
            before.push(paths.last())
        } else {
            before
        }
    }
}

/// What became of the files that an outside tool unpacked.
#[derive(Debug, PartialEq, Eq)]
pub struct Unpacked {
    /// The files to keep, or the failure where there is none.
    pub outcome: Result<Vec<String>, Error>,
    /// The files to delete.
    pub removed: Vec<String>,
}

/// Extracts preference files from a resource bundle.
#[derive(Debug, PartialEq, Eq)]
pub struct OmniExtractor {
    omni_path: String,
    config: ExtractConfig,
}

impl OmniExtractor {
    /// The path of the bundle.
    pub closed spec fn path(&self) -> Seq<char> {
        self.omni_path@
    }

    /// The configuration.
    pub closed spec fn settings(&self) -> ExtractConfigView {
        self.config@
    }

    /// An extractor with the default configuration for the bundle at
    /// `omni_path`, whose size in bytes is `file_size`; `None` says that no
    /// file is there.
    pub fn new(omni_path: String, file_size: Option<usize>) -> (out: Result<OmniExtractor, Error>)
        ensures
            match file_size {
                None => out is Err && out->Err_0@ == (ErrorView::PrefFileNotFound {
                    file: omni_path@,
                }),
                Some(size) => if size > DEFAULT_MAX_OMNI_SIZE {
                    out is Err && out->Err_0@ == (ErrorView::OmniJaTooLarge {
                        actual: size as nat,
                        limit: DEFAULT_MAX_OMNI_SIZE as nat,
                    })
                } else {
                    out is Ok && out->Ok_0.path() == omni_path@ && out->Ok_0.settings()
                        == default_extract_config()
                },
            },
    {
        OmniExtractor::with_config(omni_path, file_size, ExtractConfig::default())
    }

    /// An extractor for the bundle at `omni_path`, whose size in bytes is
    /// `file_size`; `None` says that no file is there. A bundle larger than
    /// the configured ceiling is refused before anything of it is read.
    pub fn with_config(omni_path: String, file_size: Option<usize>, config: ExtractConfig) -> (out:
        Result<OmniExtractor, Error>)
        ensures
            match file_size {
                None => out is Err && out->Err_0@ == (ErrorView::PrefFileNotFound {
                    file: omni_path@,
                }),
                Some(size) => if size > config.max_omni_size {
                    out is Err && out->Err_0@ == (ErrorView::OmniJaTooLarge {
                        actual: size as nat,
                        limit: config.max_omni_size as nat,
                    })
                } else {
                    out is Ok && out->Ok_0.path() == omni_path@ && out->Ok_0.settings() == config@
                },
            },
    {
        match file_size {
            None => Err(Error::PrefFileNotFound { file: omni_path }),
            Some(size) => if size > config.max_omni_size {
                Err(Error::OmniJaTooLarge { actual: size, limit: config.max_omni_size })
            } else {
                Ok(OmniExtractor { omni_path, config })
            },
        }
    }

    /// The path of the bundle.
    pub fn omni_path(&self) -> (path: &str)
        ensures
            path@ == self.path(),
    {
        self.omni_path.as_str()
    }

    /// The configuration.
    pub fn config(&self) -> (config: &ExtractConfig)
        ensures
            config@ == self.settings(),
    {
        &self.config
    }

    /// Whether the entry `name` is wanted under the configured patterns.
    pub fn should_extract(&self, name: &str) -> (yes: bool)
        ensures
            yes == should_extract_spec(name@, self.settings().target_files),
    {
        should_extract_under(name, &self.config.target_files)
    }

    /// Takes the wanted entries out of the bundle, whose bytes are `archive`.
    pub fn extract_prefs(&self, archive: Vec<u8>) -> (out: Result<Vec<ExtractedFile>, Error>)
        ensures
            match extraction(archive@, self.settings().target_files) {
                Ok(files) => out is Ok && file_views(out->Ok_0@) == files,
                Err(message) => out is Err && out->Err_0@ == ErrorView::ExtractionFailed(message),
            },
            out matches Ok(files) ==> forall|i: int|
                0 <= i < files.len() ==> !is_unsafe_name(#[trigger] files[i].name@),
    {
        extract_entries(archive, &self.config.target_files)
    }

    /// Lists the `.js` entries of the bundle, whose bytes are `archive`.
    pub fn list_js_files(&self, archive: Vec<u8>) -> (out: Result<Vec<String>, Error>)
        ensures
            match js_names(archive@) {
                Ok(names) => out is Ok && text_views(out->Ok_0@) == names,
                Err(message) => out is Err && out->Err_0@ == ErrorView::ExtractionFailed(message),
            },
    {
        list_js_entries(archive)
    }

    /// The cached files, or why the cache cannot be used.
    pub fn try_load_from_cache(&self, cache: Option<CacheState>, archive_modified: Option<u128>)
        -> (out: Result<Vec<String>, Error>)
        ensures
            match cache_fault(cache, archive_modified) {
                Some(fault) => out is Err && out->Err_0@ == ErrorView::ExtractionFailed(fault),
                None => out is Ok && out->Ok_0 == cache->Some_0.js_files,
            },
    {
        match cache {
            None => Err(Error::ExtractionFailed(String::from_str("Cache not found"))),
            Some(state) => {
                let stale = match (state.modified, archive_modified) {
                    (Some(cached), Some(bundle)) => cached < bundle,
                    _ => false,
                };
                if stale {
                    Err(Error::ExtractionFailed(String::from_str("Cache is stale")))
                } else if state.js_files.len() == 0 {
                    Err(Error::ExtractionFailed(String::from_str("No cached files")))
                } else {
                    Ok(state.js_files)
                }
            },
        }
    }

    /// Sorts the files that an outside tool unpacked, named by their paths
    /// below the cache directory: the `.js` files that the patterns want are
    /// kept, the other `.js` files are to be deleted, and where none is kept
    /// the extraction has failed.
    pub fn filter_unpacked(&self, paths: &Vec<String>) -> (out: Unpacked)
        ensures
            text_views(out.removed@) == unpacked_part(
                text_views(paths@),
                self.settings().target_files,
                false,
            ),
            ({
                let kept = unpacked_part(text_views(paths@), self.settings().target_files, true);
                if kept.len() == 0 {
                    out.outcome is Err && out.outcome->Err_0@ == ErrorView::ExtractionFailed(
                        "No .js files were extracted from omni.ja"@,
                    )
                } else {
                    out.outcome is Ok && text_views(out.outcome->Ok_0@) == kept
                }
            }),
    {
        let ghost all = text_views(paths@);
        let ghost targets = self.settings().target_files;
        let mut kept: Vec<String> = Vec::new();
        let mut removed: Vec<String> = Vec::new();
        let mut i: usize = 0;
        assert(text_views(kept@) == Seq::<Seq<char>>::empty());
        assert(text_views(removed@) == Seq::<Seq<char>>::empty());
        assert(all.take(0) == Seq::<Seq<char>>::empty());
        while i < paths.len()
            invariant
                i <= paths.len(),
                all == text_views(paths@),
                targets == self.settings().target_files,
                text_views(kept@) == unpacked_part(all.take(i as int), targets, true),
                text_views(removed@) == unpacked_part(all.take(i as int), targets, false),
            decreases paths.len() - i,
        {
            let path = &paths[i];
            proof {
                assert(all.take(i + 1).drop_last() == all.take(i as int));
                assert(all.take(i + 1).last() == path@);
            }
            if js_extension(path.as_str()) {
                let ghost kept_before = text_views(kept@);
                let ghost removed_before = text_views(removed@);
                let copy = path.clone();
                if self.should_extract(path.as_str()) {
                    kept.push(copy);
                    assert(text_views(kept@) == kept_before.push(path@));
                } else {
                    removed.push(copy);
                    assert(text_views(removed@) == removed_before.push(path@));
                }
            }
            i += 1;
        }
        assert(all.take(paths.len() as int) == all);
        let outcome = if kept.len() == 0 {
            Err(Error::ExtractionFailed(String::from_str("No .js files were extracted from omni.ja")))
        } else {
            Ok(kept)
        };
        Unpacked { outcome, removed }
    }
}

/// The place behind the last `/` of `path` before `to`.
pub open spec fn name_start(path: Seq<char>, to: int) -> int
    decreases to,
{
    if 0 < to <= path.len() && path[to - 1] != '/' {
        name_start(path, to - 1)
    } else {
        to
    }
}

/// The name of the file at `path`: what stands behind the last `/`, or
/// `omni` where nothing stands there.
pub open spec fn file_name_or_omni(path: Seq<char>) -> Seq<char> {
    let from = name_start(path, path.len() as int);
    if from >= path.len() {
        "omni"@
    } else {
        path.skip(from)
    }
}

/// Where extracted files are kept: the configured directory, else the
/// temporary directory of the extractor, else a directory below the
/// system's temporary directory named after the bundle and the time.
pub open spec fn cache_path_spec(
    config: ExtractConfigView,
    omni_path: Seq<char>,
    temp_dir: Option<Seq<char>>,
    system_temp: Seq<char>,
    now_secs: nat,
) -> Seq<char> {
    match (config.cache_dir, temp_dir) {
        (Some(dir), _) => dir,
        (None, Some(dir)) => dir,
        (None, None) => joined(
            joined(joined(system_temp, "ffcv"@), "omni"@),
            file_name_or_omni(omni_path).push('_') + decimal_text(now_secs),
        ),
    }
}

/// The cached files that stand in for an extraction, if any: none where a
/// refresh is forced, and none where the cache has a fault.
pub open spec fn reusable_cache(
    config: ExtractConfigView,
    cache: Option<CacheState>,
    archive_modified: Option<u128>,
) -> Option<Vec<String>> {
    if config.force_refresh || cache_fault(cache, archive_modified) is Some {
        None
    } else {
        Some(cache->Some_0.js_files)
    }
}

impl OmniExtractor {
    /// The cached files that stand in for an extraction, if any.
    pub fn reuse_cache(&self, cache: Option<CacheState>, archive_modified: Option<u128>) -> (out:
        Option<Vec<String>>)
        ensures
            out == reusable_cache(self.settings(), cache, archive_modified),
    {
        if self.config.force_refresh {
            return None;
        }
        match self.try_load_from_cache(cache, archive_modified) {
            Ok(files) => Some(files),
            Err(_) => None,
        }
    }

    /// Where extracted files are kept. `temp_dir` is the temporary
    /// directory that belongs to this extractor, if it has one;
    /// `system_temp` is the system's temporary directory and `now_secs` the
    /// time in seconds, which name the directory where the other two are missing.
    pub fn get_cache_path(&self, temp_dir: Option<&str>, system_temp: &str, now_secs: u64) -> (out:
        String)
        ensures
            out@ == cache_path_spec(
                self.settings(),
                self.path(),
                match temp_dir {
                    Some(dir) => Some(dir@),
                    None => None,
                },
                system_temp@,
                now_secs as nat,
            ),
    {
        match (&self.config.cache_dir, temp_dir) {
            (Some(dir), _) => dir.clone(),
            (None, Some(dir)) => String::from_str(dir),
            (None, None) => {
                let path = chars_of(self.omni_path.as_str());
                let mut from: usize = path.len();
                while from > 0 && path[from - 1] != '/'
                    invariant
                        from <= path.len(),
                        name_start(path@, from as int) == name_start(path@, path.len() as int),
                    decreases from,
                {
                    from -= 1;
                }
                let mut name = if from >= path.len() {
                    String::from_str("omni")
                } else {
                    assert(path@.skip(from as int) == path@.subrange(from as int, path.len() as int));
                    string_of(&path, from, path.len())
                };
                name.push('_');
                name.append(decimal_string_u64(now_secs).as_str());
                let base = join_path(join_path(system_temp, "ffcv").as_str(), "omni");
                join_path(base.as_str(), name.as_str())
            },
        }
    }
}

/// The place behind the last blank of `line` before `to`.
pub open spec fn last_field_start(line: Seq<char>, to: int) -> int
    decreases to,
{
    if 0 < to <= line.len() && line[to - 1] != ' ' {
        last_field_start(line, to - 1)
    } else {
        to
    }
}

/// The `.js` file that a line of an archive listing names: the line is no
/// heading, no rule and not empty, and what stands behind its last blank
/// ends in `.js`.
pub open spec fn listed_js_file(line: Seq<char>) -> Option<Seq<char>> {
    let from = last_field_start(line, line.len() as int);
    if contains(line, "length"@) || contains(line, "---"@) || trimmed(line).len() == 0 || from
        == 0 {
        None
    } else if ends_with(line.skip(from), seq!['.', 'j', 's']) {
        Some(line.skip(from))
    } else {
        None
    }
}

/// The `.js` files that the lines of an archive listing name, in order.
pub open spec fn listed_js_files(rows: Seq<Seq<char>>) -> Seq<Seq<char>>
    decreases rows.len(),
{
    if rows.len() == 0 {
        Seq::empty()
    } else {
        let before = listed_js_files(rows.drop_last());
        match listed_js_file(rows.last()) {
            Some(name) => before.push(name),
            None => before,
        }
    }
}

fn line_js_file(line: &Vec<char>) -> (out: Option<String>)
    ensures
        match listed_js_file(line@) {
            Some(name) => out is Some && out->Some_0@ == name,
            None => out is None,
        },
{
    if has_part(line, &chars_of("length")) || has_part(line, &chars_of("---")) || trim(line).len()
        == 0 {
        return None;
    }
    let mut from: usize = line.len();
    while from > 0 && line[from - 1] != ' '
        invariant
            from <= line.len(),
            last_field_start(line@, from as int) == last_field_start(line@, line.len() as int),
        decreases from,
    {
        from -= 1;
    }
    if from == 0 {
        return None;
    }
    let name = slice_of(line, from, line.len());
    assert(line@.skip(from as int) == line@.subrange(from as int, line.len() as int));
    if has_suffix(&name, &js_suffix()) {
        Some(string_of(&name, 0, name.len()))
    } else {
        None
    }
}

/// Reads the `.js` files from the listing that an outside tool printed of
/// an archive: one file to a line, its name in the last column.
pub fn parse_unzip_listing(listing: &str) -> (out: Vec<String>)
    ensures
        text_views(out@) == listed_js_files(lines_of(listing@)),
{
    let rows = lines(&chars_of(listing));
    let ghost views = row_views(rows@);
    let mut out: Vec<String> = Vec::new();
    let mut i: usize = 0;
    assert(views.take(0) == Seq::<Seq<char>>::empty());
    assert(text_views(out@) == Seq::<Seq<char>>::empty());
    while i < rows.len()
        invariant
            i <= rows.len(),
            views == row_views(rows@),
            views == lines_of(listing@),
            text_views(out@) == listed_js_files(views.take(i as int)),
        decreases rows.len() - i,
    {
        proof {
            assert(views.take(i + 1).drop_last() == views.take(i as int));
            assert(views.take(i + 1).last() == rows@[i as int]@);
        }
        match line_js_file(&rows[i]) {
            Some(name) => {
                assert(text_views(out@.push(name)) == text_views(out@).push(name@));
                out.push(name);
            },
            None => {},
        }
        i += 1;
    }
    assert(views.take(rows.len() as int) == views);
    out
}

} // verus!
