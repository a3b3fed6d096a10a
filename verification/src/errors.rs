//! The error taxonomy of the inventory engine.

use vstd::prelude::*;

verus! {

/// Everything that can go wrong while classifying a file, building an
/// inventory, or answering a query.
#[derive(Clone, Copy, Debug, PartialEq, Eq, Structural)]
pub enum EtlError {
    /// The path nests more than three folders below the root, or more than
    /// one folder segment is left over after stage and system detection.
    MalformedStructure,
    /// The file extension is not in the recognized extension set.
    UnknownTaskType,
    /// A query supplied a system-type token that no variant recognizes.
    UnknownAlias,
    /// A name lookup found no matching subtask.
    NotFound,
}

impl EtlError {
    /// The message text for this error.
    pub open spec fn spec_message(self) -> Seq<char> {
        match self {
            EtlError::MalformedStructure => "Incorrect folder structure"@,
            EtlError::UnknownTaskType => "Unknown task type"@,
            EtlError::UnknownAlias => "Unknown alias"@,
            EtlError::NotFound => "Task not found"@,
        }
    }

    /// A short human-readable description of the error.
    pub fn message(&self) -> (m: &'static str)
        ensures
            m@ == self.spec_message(),
    {
        match self {
            EtlError::MalformedStructure => "Incorrect folder structure",
            EtlError::UnknownTaskType => "Unknown task type",
            EtlError::UnknownAlias => "Unknown alias",
            EtlError::NotFound => "Task not found",
        }
    }
}

} // verus!
