//! The failures that an operation on the database can end in.

use vstd::prelude::*;

verus! {

/// Why an operation failed. The variants that carry a `String` hold the
/// engine's own diagnostic text, unchanged.
#[derive(Debug)]
pub enum LevelDBError {
    /// The engine refused to open or create the database.
    FailedToOpen(String),
    /// The path cannot be written as a NUL-terminated native string.
    InvalidPath,
    /// The engine reported a failure while writing.
    WriteFailed(String),
    /// The engine reported a failure while reading; a missing key is none.
    ReadFailed(String),
}

impl LevelDBError {
    /// The fixed text that names the kind of failure.
    pub open spec fn summary(self) -> Seq<char> {
        match self {
            LevelDBError::FailedToOpen(_) => "Failed to open LevelDB"@,
            LevelDBError::InvalidPath => "Invalid DB name"@,
            LevelDBError::WriteFailed(_) => "Failed to write to LevelDB"@,
            LevelDBError::ReadFailed(_) => "Failed to read from LevelDB"@,
        }
    }

    /// The engine's diagnostic text, where the failure came from the engine.
    pub open spec fn diagnostic(self) -> Option<Seq<char>> {
        match self {
            LevelDBError::FailedToOpen(m) => Some(m@),
            LevelDBError::InvalidPath => None,
            LevelDBError::WriteFailed(m) => Some(m@),
            LevelDBError::ReadFailed(m) => Some(m@),
        }
    }

    /// Renders the kind of failure as text.
    pub fn message(&self) -> (text: String)
        ensures
            text@ == self.summary(),
    {
        match self {
            LevelDBError::FailedToOpen(_) => "Failed to open LevelDB".to_owned(),
            LevelDBError::InvalidPath => "Invalid DB name".to_owned(),
            LevelDBError::WriteFailed(_) => "Failed to write to LevelDB".to_owned(),
            LevelDBError::ReadFailed(_) => "Failed to read from LevelDB".to_owned(),
        }
    }

    /// The engine's diagnostic text, if the failure carries one.
    pub fn engine_message(&self) -> (text: Option<&String>)
        ensures
            match text {
                Some(m) => self.diagnostic() == Some(m@),
                None => self.diagnostic() is None,
            },
    {
        match self {
            LevelDBError::FailedToOpen(m) => Some(m),
            LevelDBError::InvalidPath => None,
            LevelDBError::WriteFailed(m) => Some(m),
            LevelDBError::ReadFailed(m) => Some(m),
        }
    }
}

} // verus!
