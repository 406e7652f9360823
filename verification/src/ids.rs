//! Identifiers of lists and of items.
//!
//! Both kinds carry one unsigned 32-bit value that the store assigns. They
//! are separate types, so that one cannot stand where the other is meant.

use vstd::prelude::*;
use vstd::std_specs::convert::FromSpecImpl;

verus! {

/// Identifier of a todo list.
#[derive(Debug, Clone, Copy, PartialEq, Eq, PartialOrd, Ord, Hash, Structural)]
pub struct TodoListId(pub u32);

/// Identifier of an item, unique across all lists.
#[derive(Debug, Clone, Copy, PartialEq, Eq, PartialOrd, Ord, Hash, Structural)]
pub struct ItemId(pub u32);

impl TodoListId {
    /// The value that the store knows this list by.
    pub fn value(self) -> (value: u32)
        ensures
            value == self.0,
    {
        self.0
    }
}

impl ItemId {
    /// The value that the store knows this item by.
    pub fn value(self) -> (value: u32)
        ensures
            value == self.0,
    {
        self.0
    }
}

impl From<u32> for TodoListId {
    fn from(value: u32) -> (id: TodoListId) {
        TodoListId(value)
    }
}

impl FromSpecImpl<u32> for TodoListId {
    open spec fn obeys_from_spec() -> bool {
        true
    }

    open spec fn from_spec(value: u32) -> TodoListId {
        TodoListId(value)
    }
}

impl From<TodoListId> for u32 {
    fn from(id: TodoListId) -> (value: u32) {
        id.0
    }
}

impl FromSpecImpl<TodoListId> for u32 {
    open spec fn obeys_from_spec() -> bool {
        true
    }

    open spec fn from_spec(id: TodoListId) -> u32 {
        id.0
    }
}

impl From<u32> for ItemId {
    fn from(value: u32) -> (id: ItemId) {
        ItemId(value)
    }
}

impl FromSpecImpl<u32> for ItemId {
    open spec fn obeys_from_spec() -> bool {
        true
    }

    open spec fn from_spec(value: u32) -> ItemId {
        ItemId(value)
    }
}

impl From<ItemId> for u32 {
    fn from(id: ItemId) -> (value: u32) {
        id.0
    }
}

impl FromSpecImpl<ItemId> for u32 {
    open spec fn obeys_from_spec() -> bool {
        true
    }

    open spec fn from_spec(id: ItemId) -> u32 {
        id.0
    }
}

} // verus!
