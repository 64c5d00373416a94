//! What an operation reports when it does not succeed, and what the
//! persistence layer writes to the diagnostic output.

use vstd::prelude::*;
use vstd::string::*;

verus! {

/// The three kinds of record the store keeps.
#[derive(Clone, Copy, Debug, PartialEq, Eq, Structural)]
pub enum EntityKind {
    Task,
    Schedule,
    Timer,
}

/// Why an operation on the store did not succeed.
#[derive(Debug, PartialEq, Eq)]
pub enum StoreError {
    /// No record of that kind is filed under the identifier given.
    NotFound(EntityKind),
    /// A timestamp that the operation needs could not be read; carries the
    /// reason.
    Malformed(String),
}

/// A `StoreError` as contracts speak of it.
pub enum StoreErrorView {
    NotFound(EntityKind),
    Malformed(Seq<char>),
}

impl View for StoreError {
    type V = StoreErrorView;

    open spec fn view(&self) -> StoreErrorView {
        match self {
            StoreError::NotFound(kind) => StoreErrorView::NotFound(*kind),
            StoreError::Malformed(reason) => StoreErrorView::Malformed(reason@),
        }
    }
}

impl StoreErrorView {
    /// The text shown to the caller for this error.
    pub open spec fn message(self) -> Seq<char> {
        match self {
            StoreErrorView::NotFound(EntityKind::Task) => "Task not found"@,
            StoreErrorView::NotFound(EntityKind::Schedule) => "Schedule not found"@,
            StoreErrorView::NotFound(EntityKind::Timer) => "Timer not found"@,
            StoreErrorView::Malformed(reason) => reason,
        }
    }
}

impl StoreError {
    /// The text shown to the caller for this error.
    pub fn message(&self) -> (r: String)
        ensures
            r@ == self@.message(),
    {
        match self {
            StoreError::NotFound(EntityKind::Task) => "Task not found".to_string(),
            StoreError::NotFound(EntityKind::Schedule) => "Schedule not found".to_string(),
            StoreError::NotFound(EntityKind::Timer) => "Timer not found".to_string(),
            StoreError::Malformed(reason) => reason.clone(),
        }
    }
}

/// A failure to read or write the document on disk. It is reported on the
/// diagnostic output and never reaches the caller of a store operation.
#[derive(Debug, PartialEq, Eq)]
pub enum PersistenceFailure {
    /// The document is there but could not be read; carries the reason.
    Read(String),
    /// The document was read but is not a store document; carries the reason.
    Parse(String),
    /// The document holds a record under a key that is not the record's own
    /// identifier.
    Misfiled,
    /// The store could not be rendered as a document; carries the reason.
    Serialize(String),
    /// The document could not be written; carries the reason.
    Write(String),
}

/// A `PersistenceFailure` as contracts speak of it.
pub enum PersistenceFailureView {
    Read(Seq<char>),
    Parse(Seq<char>),
    Misfiled,
    Serialize(Seq<char>),
    Write(Seq<char>),
}

impl View for PersistenceFailure {
    type V = PersistenceFailureView;

    open spec fn view(&self) -> PersistenceFailureView {
        match self {
            PersistenceFailure::Read(reason) => PersistenceFailureView::Read(reason@),
            PersistenceFailure::Parse(reason) => PersistenceFailureView::Parse(reason@),
            PersistenceFailure::Misfiled => PersistenceFailureView::Misfiled,
            PersistenceFailure::Serialize(reason) => PersistenceFailureView::Serialize(reason@),
            PersistenceFailure::Write(reason) => PersistenceFailureView::Write(reason@),
        }
    }
}

impl PersistenceFailureView {
    /// The line written to the diagnostic output for this failure.
    pub open spec fn message(self) -> Seq<char> {
        match self {
            PersistenceFailureView::Read(reason) => "Failed to read data file: "@ + reason,
            PersistenceFailureView::Parse(reason) => "Failed to parse data file: "@ + reason,
            PersistenceFailureView::Misfiled => "Failed to parse data file: "@
                + "a record is filed under a key that is not its id"@,
            PersistenceFailureView::Serialize(reason) => "Failed to serialize app state: "@
                + reason,
            PersistenceFailureView::Write(reason) => "Failed to save data file: "@ + reason,
        }
    }
}

impl PersistenceFailure {
    /// The line written to the diagnostic output for this failure.
    pub fn message(&self) -> (r: String)
        ensures
            r@ == self@.message(),
    {
        match self {
            PersistenceFailure::Read(reason) => "Failed to read data file: ".to_string().concat(
                reason.as_str(),
            ),
            PersistenceFailure::Parse(reason) => "Failed to parse data file: ".to_string().concat(
                reason.as_str(),
            ),
            PersistenceFailure::Misfiled => "Failed to parse data file: ".to_string().concat(
                "a record is filed under a key that is not its id",
            ),
            PersistenceFailure::Serialize(reason) => "Failed to serialize app state: ".to_string().concat(
            reason.as_str()),
            PersistenceFailure::Write(reason) => "Failed to save data file: ".to_string().concat(
                reason.as_str(),
            ),
        }
    }
}

} // verus!
