//! What the store hands to, and takes from, the code that reads and writes
//! the document on disk.

use crate::error::{PersistenceFailure, PersistenceFailureView, StoreError};
use crate::store::{Snapshot, Store, StoreView};
use vstd::prelude::*;

verus! {

/// The directory, under the per-user configuration directory, that holds the
/// document.
pub const DATA_DIR_NAME: &'static str = "log-manager";

/// The file name of the document.
pub const DATA_FILE_NAME: &'static str = "app_data.json";

/// What came of looking for the document on disk.
#[derive(Debug, PartialEq, Eq)]
pub enum Loaded {
    /// There is no document: the state before the first run.
    Missing,
    /// The document is there but could not be read; carries the reason.
    Unreadable(String),
    /// The document was read but is not a store document; carries the reason.
    Unparsable(String),
    /// The three mappings that the document holds.
    Document(Snapshot),
}

impl Loaded {
    /// The store to start with.
    pub open spec fn store(self) -> StoreView {
        match self {
            Loaded::Document(snapshot) => if snapshot.filed_by_id() {
                snapshot@
            } else {
                StoreView::empty()
            },
            _ => StoreView::empty(),
        }
    }

    /// The failure to report, if any.
    pub open spec fn failure(self) -> Option<PersistenceFailureView> {
        match self {
            Loaded::Missing => None,
            Loaded::Unreadable(reason) => Some(PersistenceFailureView::Read(reason@)),
            Loaded::Unparsable(reason) => Some(PersistenceFailureView::Parse(reason@)),
            Loaded::Document(snapshot) => if snapshot.filed_by_id() {
                None
            } else {
                Some(PersistenceFailureView::Misfiled)
            },
        }
    }
}

/// An optional failure as contracts speak of it.
pub open spec fn failure_view(failure: Option<PersistenceFailure>) -> Option<
    PersistenceFailureView,
> {
    match failure {
        Some(f) => Some(f@),
        None => None,
    }
}

impl Store {
    /// The store to start with, and the failure to report, if any. A missing
    /// document gives the empty store and is no failure; a document that
    /// cannot be used gives the empty store and a failure.
    pub fn load(loaded: Loaded) -> (r: (Store, Option<PersistenceFailure>))
        ensures
            r.0@ == loaded.store(),
            failure_view(r.1) == loaded.failure(),
    {
        match loaded {
            Loaded::Missing => (Store::new(), None),
            Loaded::Unreadable(reason) => (Store::new(), Some(PersistenceFailure::Read(reason))),
            Loaded::Unparsable(reason) => (Store::new(), Some(PersistenceFailure::Parse(reason))),
            Loaded::Document(snapshot) => match Store::restore(&snapshot) {
                Some(store) => (store, None),
                None => (Store::new(), Some(PersistenceFailure::Misfiled)),
            },
        }
    }

    /// What is to be written to disk after an operation with the result
    /// `result`: the whole store where it succeeded, nothing where it failed.
    pub fn pending_write<T>(&self, result: &Result<T, StoreError>) -> (r: Option<Snapshot>)
        ensures
            r is Some <==> result is Ok,
            r matches Some(snapshot) ==> snapshot.is_snapshot_of(self@),
    {
        match result {
            Ok(_) => Some(self.get_all()),
            Err(_) => None,
        }
    }
}

} // verus!
