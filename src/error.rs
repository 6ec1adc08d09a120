use vstd::prelude::*;

verus! {

/// A failure of the storage provider to hand back stacks or entries.
#[derive(Clone, Debug, PartialEq, Eq)]
pub struct StoreError {
    pub reason: String,
}

/// Why the navigator refused a request.
#[derive(Clone, Debug, PartialEq, Eq)]
pub enum NavError {
    /// An index outside the current list: a mistake of the caller.
    InvalidSelection,
    /// The storage provider failed; nothing visible was changed.
    LoadFailure(StoreError),
}

} // verus!
