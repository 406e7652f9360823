//! What can go wrong between the rows of the store and the lists in memory.

use crate::ids::{ItemId, TodoListId};
use vstd::prelude::*;
use vstd::string::StringExecFns;

verus! {

/// A row that cannot become part of a list, or a list that no longer agrees
/// with the store.
#[derive(Debug, Clone, Copy, PartialEq, Eq, Hash, Structural)]
pub enum Error {
    /// The store has no list with this identifier.
    NotFound { list_id: TodoListId },
    /// A creation timestamp is not in the store's layout.
    MalformedTimestamp,
    /// The store handed out an item identifier that the list already holds.
    DuplicateItem { id: ItemId },
    /// Store and memory disagree on whether an item existed before it was
    /// removed; `in_store` is the store's side.
    Inconsistent { id: ItemId, in_store: bool },
}

impl Error {
    /// The text of `describe`.
    pub open spec fn description(self) -> Seq<char> {
        match self {
            Error::NotFound { .. } => "no such todo list"@,
            Error::MalformedTimestamp => "malformed creation timestamp"@,
            Error::DuplicateItem { .. } => "the store assigned an item identifier twice"@,
            Error::Inconsistent { .. } => "store and memory disagree about an item"@,
        }
    }

    /// A sentence for the operator.
    pub fn describe(&self) -> (text: String)
        ensures
            text@ == self.description(),
    {
        match self {
            Error::NotFound { .. } => String::from_str("no such todo list"),
            Error::MalformedTimestamp => String::from_str("malformed creation timestamp"),
            Error::DuplicateItem { .. } => String::from_str(
                "the store assigned an item identifier twice",
            ),
            Error::Inconsistent { .. } => String::from_str(
                "store and memory disagree about an item",
            ),
        }
    }
}

} // verus!
