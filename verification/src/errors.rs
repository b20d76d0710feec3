//! Error taxonomy of the storage core.
//!
//! Two disjoint families: `SetupError` for fatal bootstrap failures (the
//! process must not proceed on a half-migrated schema), and `CommandError`
//! for recoverable per-command failures that are reported to the caller as a
//! human-readable message and never abort the process.

use vstd::prelude::*;

verus! {

/// Fatal failure during storage bootstrap. Carries the underlying detail as
/// plain text; the process is expected to stop rather than run with an
/// unknown schema.
#[derive(Debug)]
pub enum SetupError {
    /// The application data directory could not be created.
    DirectoryCreation(String),
    /// The database file could not be opened or created.
    FileOpen(String),
    /// The connection pool could not be established.
    PoolCreation(String),
    /// A migration script failed part-way.
    Migration(String),
}

impl SetupError {
    /// The human-readable message for this failure.
    pub open spec fn spec_message(self) -> Seq<char> {
        match self {
            SetupError::DirectoryCreation(d) => "could not create the data directory: "@ + d@,
            SetupError::FileOpen(d) => "could not open or create the database file: "@ + d@,
            SetupError::PoolCreation(d) => "could not establish the connection pool: "@ + d@,
            SetupError::Migration(d) => "schema migration failed: "@ + d@,
        }
    }

    /// Renders the failure as one line of text for the startup log.
    pub fn message(&self) -> (m: String)
        ensures
            m@ == self.spec_message(),
    {
        match self {
            SetupError::DirectoryCreation(d) => {
                String::from_str("could not create the data directory: ").concat(d.as_str())
            },
            SetupError::FileOpen(d) => {
                String::from_str("could not open or create the database file: ").concat(d.as_str())
            },
            SetupError::PoolCreation(d) => {
                String::from_str("could not establish the connection pool: ").concat(d.as_str())
            },
            SetupError::Migration(d) => {
                String::from_str("schema migration failed: ").concat(d.as_str())
            },
        }
    }
}

/// The first field of a submitted entry that fails validation, in the fixed
/// order the fields are checked.
#[derive(Debug, Clone, Copy, PartialEq, Eq, Structural)]
pub enum FieldFault {
    EmptyMode,
    EmptySubject,
    NegativeFocusDuration,
    NegativeBreakDuration,
    NegativeBreakCount,
}

impl FieldFault {
    /// What the caller is told about the rejected field.
    pub open spec fn spec_message(self) -> Seq<char> {
        match self {
            FieldFault::EmptyMode => "mode must not be empty"@,
            FieldFault::EmptySubject => "subject must not be empty"@,
            FieldFault::NegativeFocusDuration => "focus duration must not be negative"@,
            FieldFault::NegativeBreakDuration => "break duration must not be negative"@,
            FieldFault::NegativeBreakCount => "break count must not be negative"@,
        }
    }

    /// Renders the rejected field as text.
    pub fn message(&self) -> (m: String)
        ensures
            m@ == self.spec_message(),
    {
        match self {
            FieldFault::EmptyMode => String::from_str("mode must not be empty"),
            FieldFault::EmptySubject => String::from_str("subject must not be empty"),
            FieldFault::NegativeFocusDuration => {
                String::from_str("focus duration must not be negative")
            },
            FieldFault::NegativeBreakDuration => {
                String::from_str("break duration must not be negative")
            },
            FieldFault::NegativeBreakCount => {
                String::from_str("break count must not be negative")
            },
        }
    }
}

/// Recoverable failure of one command invocation. The process keeps running
/// and stays usable for later commands.
#[derive(Debug)]
pub enum CommandError {
    /// The entry was rejected at the command boundary before touching
    /// storage.
    Rejected(FieldFault),
    /// Initialization has not finished yet; the command is refused rather
    /// than queued (fail-fast readiness policy).
    NotReady,
    /// Initialization failed; the storage layer is permanently degraded for
    /// this process.
    Unavailable,
    /// The database reported a failure while executing the statement.
    Database(String),
}

impl CommandError {
    /// The human-readable message surfaced to the caller.
    pub open spec fn spec_message(self) -> Seq<char> {
        match self {
            CommandError::Rejected(f) => "invalid study log entry: "@ + f.spec_message(),
            CommandError::NotReady => "storage is still initializing"@,
            CommandError::Unavailable => "storage is unavailable"@,
            CommandError::Database(d) => "failed to insert the study log: "@ + d@,
        }
    }

    /// Renders the failure as one line of text for the caller.
    pub fn message(&self) -> (m: String)
        ensures
            m@ == self.spec_message(),
    {
        match self {
            CommandError::Rejected(f) => {
                let tail = f.message();
                String::from_str("invalid study log entry: ").concat(tail.as_str())
            },
            CommandError::NotReady => String::from_str("storage is still initializing"),
            CommandError::Unavailable => String::from_str("storage is unavailable"),
            CommandError::Database(d) => {
                String::from_str("failed to insert the study log: ").concat(d.as_str())
            },
        }
    }
}

} // verus!
