//! What the application asks of the store, and what the store answers.
//!
//! The store itself is out of reach from here. A driver carries out each
//! request against it and brings back the reply.

use crate::fault::ReplyKind;
use crate::ids::{ItemId, TodoListId};
use crate::item::{Inserted, InsertedView, ItemRow, ItemRowView, Write, WriteView};
use crate::todo_list::{ListRow, ListRowView};
use vstd::prelude::*;

verus! {

/// One operation on the store.
#[derive(Debug, Clone, PartialEq, Eq)]
pub enum Request {
    /// The identifier and title of every list.
    ListAll,
    /// Insert a list with this title.
    CreateList { title: String },
    /// The row of the list `list_id` and the rows of all its items.
    LoadList { list_id: TodoListId },
    /// Delete the list `list_id`; the store deletes its items with it.
    DeleteList { list_id: TodoListId },
    /// Insert an item with this description into the list `list_id`.
    AddItem { list_id: TodoListId, description: String },
    /// Delete the item `item_id`.
    DeleteItem { item_id: ItemId },
    /// Make these writes, in order, and stop at the first that fails.
    Save { writes: Vec<Write> },
}

/// The mathematical content of a [`Request`].
pub enum RequestView {
    ListAll,
    CreateList { title: Seq<char> },
    LoadList { list_id: TodoListId },
    DeleteList { list_id: TodoListId },
    AddItem { list_id: TodoListId, description: Seq<char> },
    DeleteItem { item_id: ItemId },
    Save { writes: Seq<WriteView> },
}

impl View for Request {
    type V = RequestView;

    open spec fn view(&self) -> RequestView {
        match *self {
            Request::ListAll => RequestView::ListAll,
            Request::CreateList { title } => RequestView::CreateList { title: title@ },
            Request::LoadList { list_id } => RequestView::LoadList { list_id },
            Request::DeleteList { list_id } => RequestView::DeleteList { list_id },
            Request::AddItem { list_id, description } => RequestView::AddItem {
                list_id,
                description: description@,
            },
            Request::DeleteItem { item_id } => RequestView::DeleteItem { item_id },
            Request::Save { writes } => RequestView::Save {
                writes: writes@.map_values(|write: Write| write@),
            },
        }
    }
}

/// What the store answered.
#[derive(Debug, Clone, PartialEq, Eq)]
pub enum Reply {
    /// The identifier and title of every list.
    Lists { rows: Vec<(u32, String)> },
    /// The row of a list and the rows of its items; no row where the store
    /// has no list with the identifier that was asked for.
    Loaded { row: Option<ListRow>, items: Vec<ItemRow> },
    /// What the store assigned to the row that it inserted.
    Inserted { row: Inserted },
    /// The number of rows that a deletion removed from the table it was
    /// aimed at.
    Deleted { affected_rows: u64 },
    /// All writes were made.
    Saved,
    /// The store could not carry out the request; `detail` is its account.
    /// `written` is the number of writes of a save that were made before
    /// the one that failed, and zero for any other request.
    Failed { detail: String, written: usize },
}

/// The mathematical content of a [`Reply`].
pub enum ReplyView {
    Lists { rows: Seq<(u32, Seq<char>)> },
    Loaded { row: Option<ListRowView>, items: Seq<ItemRowView> },
    Inserted { row: InsertedView },
    Deleted { affected_rows: u64 },
    Saved,
    Failed { detail: Seq<char>, written: usize },
}

impl View for Reply {
    type V = ReplyView;

    open spec fn view(&self) -> ReplyView {
        match *self {
            Reply::Lists { rows } => ReplyView::Lists {
                rows: rows@.map_values(|row: (u32, String)| (row.0, row.1@)),
            },
            Reply::Loaded { row, items } => ReplyView::Loaded {
                row: match row {
                    Some(row) => Some(row@),
                    None => None,
                },
                items: items@.map_values(|item: ItemRow| item@),
            },
            Reply::Inserted { row } => ReplyView::Inserted { row: row@ },
            Reply::Deleted { affected_rows } => ReplyView::Deleted { affected_rows },
            Reply::Saved => ReplyView::Saved,
            Reply::Failed { detail, written } => ReplyView::Failed { detail: detail@, written },
        }
    }
}

impl ReplyView {
    /// The kind of this reply.
    pub open spec fn kind(self) -> ReplyKind {
        match self {
            ReplyView::Lists { .. } => ReplyKind::Lists,
            ReplyView::Loaded { .. } => ReplyKind::Loaded,
            ReplyView::Inserted { .. } => ReplyKind::Inserted,
            ReplyView::Deleted { .. } => ReplyKind::Deleted,
            ReplyView::Saved => ReplyKind::Saved,
            ReplyView::Failed { .. } => ReplyKind::Failed,
        }
    }
}

impl Reply {
    /// The kind of this reply.
    pub fn kind(&self) -> (kind: ReplyKind)
        ensures
            kind == self@.kind(),
    {
        match self {
            Reply::Lists { .. } => ReplyKind::Lists,
            Reply::Loaded { .. } => ReplyKind::Loaded,
            Reply::Inserted { .. } => ReplyKind::Inserted,
            Reply::Deleted { .. } => ReplyKind::Deleted,
            Reply::Saved => ReplyKind::Saved,
            Reply::Failed { .. } => ReplyKind::Failed,
        }
    }
}

} // verus!
