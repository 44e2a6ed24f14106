//! The errors of the library, and the sentences that report them.

use crate::text::{decimal_string, decimal_text};
use vstd::prelude::*;
use vstd::string::StringExecFns;

verus! {

/// What can go wrong while reading, extracting or merging preferences.
#[derive(Debug, PartialEq, Eq)]
pub enum Error {
    /// The text could not be split into tokens.
    Lexer { line: usize, column: usize, message: String },
    /// The tokens do not form a preference statement.
    Parser { line: usize, column: usize, message: String },
    /// A preference has an invalid type or value.
    InvalidPreference(String),
    /// A file operation failed; holds the system's message.
    Io(String),
    /// No profile of that name exists in the directory.
    ProfileNotFound { name: String, directory: String },
    /// The directory holds no profiles.
    InvalidProfileDirectory(String),
    /// A query pattern is not a valid glob.
    InvalidGlobPattern(String),
    /// The profile index file could not be read as an ini file.
    ProfilesIniParse(String),
    /// No installation was found.
    FirefoxNotFound { searched_paths: String },
    /// The resource bundle could not be read.
    OmniJaError(String),
    /// A preference file is missing.
    PrefFileNotFound { file: String },
    /// Nothing could be extracted from the resource bundle.
    ExtractionFailed(String),
    /// The resource bundle is larger than the configured ceiling.
    OmniJaTooLarge { actual: usize, limit: usize },
}

/// Mathematical model of an [`Error`].
pub enum ErrorView {
    Lexer { line: nat, column: nat, message: Seq<char> },
    Parser { line: nat, column: nat, message: Seq<char> },
    InvalidPreference(Seq<char>),
    Io(Seq<char>),
    ProfileNotFound { name: Seq<char>, directory: Seq<char> },
    InvalidProfileDirectory(Seq<char>),
    InvalidGlobPattern(Seq<char>),
    ProfilesIniParse(Seq<char>),
    FirefoxNotFound { searched_paths: Seq<char> },
    OmniJaError(Seq<char>),
    PrefFileNotFound { file: Seq<char> },
    ExtractionFailed(Seq<char>),
    OmniJaTooLarge { actual: nat, limit: nat },
}

impl View for Error {
    type V = ErrorView;

    open spec fn view(&self) -> ErrorView {
        match self {
            Error::Lexer { line, column, message } => ErrorView::Lexer {
                line: *line as nat,
                column: *column as nat,
                message: message@,
            },
            Error::Parser { line, column, message } => ErrorView::Parser {
                line: *line as nat,
                column: *column as nat,
                message: message@,
            },
            Error::InvalidPreference(m) => ErrorView::InvalidPreference(m@),
            Error::Io(m) => ErrorView::Io(m@),
            Error::ProfileNotFound { name, directory } => ErrorView::ProfileNotFound {
                name: name@,
                directory: directory@,
            },
            Error::InvalidProfileDirectory(d) => ErrorView::InvalidProfileDirectory(d@),
            Error::InvalidGlobPattern(m) => ErrorView::InvalidGlobPattern(m@),
            Error::ProfilesIniParse(m) => ErrorView::ProfilesIniParse(m@),
            Error::FirefoxNotFound { searched_paths } => ErrorView::FirefoxNotFound {
                searched_paths: searched_paths@,
            },
            Error::OmniJaError(m) => ErrorView::OmniJaError(m@),
            Error::PrefFileNotFound { file } => ErrorView::PrefFileNotFound { file: file@ },
            Error::ExtractionFailed(m) => ErrorView::ExtractionFailed(m@),
            Error::OmniJaTooLarge { actual, limit } => ErrorView::OmniJaTooLarge {
                actual: *actual as nat,
                limit: *limit as nat,
            },
        }
    }
}

impl ErrorView {
    /// The sentence that reports the error to a person.
    pub open spec fn text(self) -> Seq<char> {
        match self {
            ErrorView::Lexer { line, column, message } => "Lexer error at line "@ + decimal_text(
                line,
            ) + ", column "@ + decimal_text(column) + ": "@ + message,
            ErrorView::Parser { line, column, message } => "Parser error at line "@ + decimal_text(
                line,
            ) + ", column "@ + decimal_text(column) + ": "@ + message,
            ErrorView::InvalidPreference(m) => "Invalid preference: "@ + m,
            ErrorView::Io(m) => "I/O error: "@ + m,
            ErrorView::ProfileNotFound { name, directory } => "Profile '"@ + name
                + "' not found in "@ + directory,
            ErrorView::InvalidProfileDirectory(d) => "Invalid profile directory: "@ + d,
            ErrorView::InvalidGlobPattern(m) => "Invalid glob pattern: "@ + m,
            ErrorView::ProfilesIniParse(m) => "Failed to parse profiles.ini: "@ + m,
            ErrorView::FirefoxNotFound { searched_paths } =>
                "Firefox installation not found. Searched paths: "@ + searched_paths,
            ErrorView::OmniJaError(m) => "omni.ja error: "@ + m,
            ErrorView::PrefFileNotFound { file } => "Preference file not found: "@ + file,
            ErrorView::ExtractionFailed(m) => "File extraction failed: "@ + m,
            ErrorView::OmniJaTooLarge { actual, limit } => "omni.ja file is too large ("@
                + decimal_text(actual) + " bytes). Maximum safe size is "@ + decimal_text(limit)
                + " bytes. You can increase this limit with --max-file-size if you're sure the file is valid."@,
        }
    }
}

/// `head` followed by `tail`.
pub fn join2(head: &str, tail: &str) -> (out: String)
    ensures
        out@ == head@ + tail@,
{
    let mut out = String::from_str(head);
    out.append(tail);
    out
}

/// The report of an error found at a line and column: `head`, the line, `", column "`,
/// the column, `": "` and the message.
fn located(head: &str, line: usize, column: usize, message: &str) -> (out: String)
    ensures
        out@ == head@ + decimal_text(line as nat) + ", column "@ + decimal_text(column as nat)
            + ": "@ + message@,
{
    let mut out = String::from_str(head);
    out.append(decimal_string(line).as_str());
    out.append(", column ");
    out.append(decimal_string(column).as_str());
    out.append(": ");
    out.append(message);
    out
}

impl Error {
    /// The sentence that reports the error to a person.
    pub fn message(&self) -> (out: String)
        ensures
            out@ == self@.text(),
    {
        match self {
            Error::Lexer { line, column, message } => located(
                "Lexer error at line ",
                *line,
                *column,
                message.as_str(),
            ),
            Error::Parser { line, column, message } => located(
                "Parser error at line ",
                *line,
                *column,
                message.as_str(),
            ),
            Error::InvalidPreference(m) => join2("Invalid preference: ", m.as_str()),
            Error::Io(m) => join2("I/O error: ", m.as_str()),
            Error::ProfileNotFound { name, directory } => {
                let mut out = String::from_str("Profile '");
                out.append(name.as_str());
                out.append("' not found in ");
                out.append(directory.as_str());
                out
            },
            Error::InvalidProfileDirectory(d) => join2("Invalid profile directory: ", d.as_str()),
            Error::InvalidGlobPattern(m) => join2("Invalid glob pattern: ", m.as_str()),
            Error::ProfilesIniParse(m) => join2("Failed to parse profiles.ini: ", m.as_str()),
            Error::FirefoxNotFound { searched_paths } => join2(
                "Firefox installation not found. Searched paths: ",
                searched_paths.as_str(),
            ),
            Error::OmniJaError(m) => join2("omni.ja error: ", m.as_str()),
            Error::PrefFileNotFound { file } => join2("Preference file not found: ", file.as_str()),
            Error::ExtractionFailed(m) => join2("File extraction failed: ", m.as_str()),
            Error::OmniJaTooLarge { actual, limit } => {
                let mut out = String::from_str("omni.ja file is too large (");
                out.append(decimal_string(*actual).as_str());
                out.append(" bytes). Maximum safe size is ");
                out.append(decimal_string(*limit).as_str());
                out.append(
                    " bytes. You can increase this limit with --max-file-size if you're sure the file is valid.",
                );
                out
            },
        }
    }
}

} // verus!
