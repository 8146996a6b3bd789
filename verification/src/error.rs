//! The ways in which loading a locale's document can fail.

use vstd::prelude::*;
use vstd::string::StringExecFns;

verus! {

/// Why no document could be loaded for a locale.
#[derive(Debug, PartialEq, Eq)]
pub enum LoadError {
    /// The host could not name a location for the locale's resource.
    Unresolved,
    /// The location was named, but nothing exists there.
    NotFound { path: String },
    /// The resource exists but reading it failed; `detail` is the reader's report.
    Read { path: String, detail: String },
    /// The content is not a table-rooted document; `detail` is the parser's report.
    Parse { path: String, detail: String },
}

/// A `LoadError` with its strings taken as sequences of characters.
pub enum LoadFailure {
    Unresolved,
    NotFound { path: Seq<char> },
    Read { path: Seq<char>, detail: Seq<char> },
    Parse { path: Seq<char>, detail: Seq<char> },
}

impl View for LoadError {
    type V = LoadFailure;

    open spec fn view(&self) -> LoadFailure {
        match *self {
            LoadError::Unresolved => LoadFailure::Unresolved,
            LoadError::NotFound { path } => LoadFailure::NotFound { path: path@ },
            LoadError::Read { path, detail } => LoadFailure::Read { path: path@, detail: detail@ },
            LoadError::Parse { path, detail } => LoadFailure::Parse {
                path: path@,
                detail: detail@,
            },
        }
    }
}

impl LoadFailure {
    /// The line a host would log for this failure.
    pub open spec fn message(self) -> Seq<char> {
        match self {
            LoadFailure::Unresolved => "no resource location for this locale"@,
            LoadFailure::NotFound { path } => "resource not found: "@ + path,
            LoadFailure::Read { path, detail } => "failed to read "@ + path + ": "@ + detail,
            LoadFailure::Parse { path, detail } => "failed to parse "@ + path + ": "@ + detail,
        }
    }
}

impl LoadError {
    /// The line a host would log for this failure.
    pub fn message(&self) -> (line: String)
        ensures
            line@ == self@.message(),
    {
        match self {
            LoadError::Unresolved => String::from_str("no resource location for this locale"),
            LoadError::NotFound { path } => {
                let mut line = String::from_str("resource not found: ");
                line.append(path.as_str());
                line
            },
            LoadError::Read { path, detail } => {
                let mut line = String::from_str("failed to read ");
                line.append(path.as_str());
                line.append(": ");
                line.append(detail.as_str());
                line
            },
            LoadError::Parse { path, detail } => {
                let mut line = String::from_str("failed to parse ");
                line.append(path.as_str());
                line.append(": ");
                line.append(detail.as_str());
                line
            },
        }
    }
}

} // verus!
