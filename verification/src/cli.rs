//! The commands of the program, as plain values.

use vstd::prelude::*;

verus! {

/// The command line: one command.
#[derive(Debug, PartialEq, Eq)]
pub struct Cli {
    pub command: Commands,
}

/// What the program is asked to do.
#[derive(Debug, PartialEq, Eq)]
pub enum Commands {
    /// List the profiles.
    Profile,
    /// Show the configuration of a profile.
    Config {
        /// The name of the profile.
        profile: String,
        /// Glob patterns: only preferences that one of them matches are shown.
        query: Vec<String>,
        /// The key of the one preference whose value is shown, as it is.
        get: Option<String>,
    },
}

/// How a configuration is shown.
#[derive(Debug, Clone, Copy, PartialEq, Eq, Structural)]
pub enum OutputType {
    /// One object, with the keys as its members.
    JsonObject,
    /// A list of entries, each with its key and its value.
    JsonArray,
}

impl Commands {
    /// Whether the command asks for nothing contradictory: a query and a
    /// single key exclude each other.
    pub open spec fn is_consistent(&self) -> bool {
        match self {
            Commands::Profile => true,
            Commands::Config { profile, query, get } => query.len() == 0 || get is None,
        }
    }

    /// Executable form of [`Commands::is_consistent`].
    pub fn consistent(&self) -> (yes: bool)
        ensures
            yes == self.is_consistent(),
    {
        match self {
            Commands::Profile => true,
            Commands::Config { profile, query, get } => query.len() == 0 || get.is_none(),
        }
    }
}

} // verus!
