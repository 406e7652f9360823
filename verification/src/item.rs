//! One entry of a todo list.

use crate::error::Error;
use crate::ids::{ItemId, TodoListId};
use crate::timestamp::Timestamp;
use vstd::prelude::*;

verus! {

/// An item as the store returns it in a row of its item table.
#[derive(Debug, Clone, PartialEq, Eq)]
pub struct ItemRow {
    pub id: u32,
    pub description: String,
    pub is_completed: bool,
    /// The creation time as the store writes it.
    pub created_at: String,
}

/// An item row whose creation time has been read: `None` where the text of
/// the row was no timestamp.
#[derive(Debug, Clone, PartialEq, Eq)]
pub struct ItemRecord {
    pub id: u32,
    pub description: String,
    pub is_completed: bool,
    pub created_at: Option<Timestamp>,
}

/// What the store returns for a row it has just inserted.
#[derive(Debug, Clone, PartialEq, Eq)]
pub struct Inserted {
    pub id: u32,
    /// The creation time as the store writes it.
    pub created_at: String,
}

/// The change that saving a dirty item or list asks of the store.
#[derive(Debug, Clone, PartialEq, Eq)]
pub enum Write {
    /// Set the description and completion flag of the item `item_id`.
    Item { item_id: ItemId, description: String, is_completed: bool },
    /// Set the title of the list `list_id`.
    List { list_id: TodoListId, title: String },
}

/// An item of a todo list.
///
/// `dirty` says that the description or the completion flag differs from
/// what was last read from or written to the store.
#[derive(Debug, PartialEq, Eq, Hash)]
pub struct Item {
    id: ItemId,
    list_id: TodoListId,
    description: String,
    is_completed: bool,
    created_at: Timestamp,
    dirty: bool,
}

/// The mathematical content of an [`ItemRow`].
pub struct ItemRowView {
    pub id: u32,
    pub description: Seq<char>,
    pub is_completed: bool,
    pub created_at: Seq<char>,
}

/// The mathematical content of an [`ItemRecord`].
pub struct ItemRecordView {
    pub id: u32,
    pub description: Seq<char>,
    pub is_completed: bool,
    pub created_at: Option<Timestamp>,
}

/// The mathematical content of an [`Inserted`].
pub struct InsertedView {
    pub id: u32,
    pub created_at: Seq<char>,
}

/// The mathematical content of a [`Write`].
pub enum WriteView {
    Item { item_id: ItemId, description: Seq<char>, is_completed: bool },
    List { list_id: TodoListId, title: Seq<char> },
}

/// The mathematical content of an [`Item`].
pub struct ItemView {
    pub id: ItemId,
    pub list_id: TodoListId,
    pub description: Seq<char>,
    pub is_completed: bool,
    pub created_at: Timestamp,
    pub dirty: bool,
}

impl View for ItemRow {
    type V = ItemRowView;

    open spec fn view(&self) -> ItemRowView {
        ItemRowView {
            id: self.id,
            description: self.description@,
            is_completed: self.is_completed,
            created_at: self.created_at@,
        }
    }
}

impl View for ItemRecord {
    type V = ItemRecordView;

    open spec fn view(&self) -> ItemRecordView {
        ItemRecordView {
            id: self.id,
            description: self.description@,
            is_completed: self.is_completed,
            created_at: self.created_at,
        }
    }
}

impl ItemRowView {
    /// This row with its creation time read.
    pub open spec fn parsed(self) -> ItemRecordView {
        ItemRecordView {
            id: self.id,
            description: self.description,
            is_completed: self.is_completed,
            created_at: Timestamp::parsed(self.created_at),
        }
    }
}

impl ItemRow {
    /// This row with its creation time read.
    pub fn parse(&self) -> (record: ItemRecord)
        ensures
            record@ == self@.parsed(),
    {
        ItemRecord {
            id: self.id,
            description: self.description.clone(),
            is_completed: self.is_completed,
            created_at: Timestamp::parse(self.created_at.as_str()),
        }
    }
}

impl View for Inserted {
    type V = InsertedView;

    open spec fn view(&self) -> InsertedView {
        InsertedView { id: self.id, created_at: self.created_at@ }
    }
}

impl View for Write {
    type V = WriteView;

    open spec fn view(&self) -> WriteView {
        match *self {
            Write::Item { item_id, description, is_completed } => WriteView::Item {
                item_id,
                description: description@,
                is_completed,
            },
            Write::List { list_id, title } => WriteView::List { list_id, title: title@ },
        }
    }
}

impl View for Item {
    type V = ItemView;

    closed spec fn view(&self) -> ItemView {
        ItemView {
            id: self.id,
            list_id: self.list_id,
            description: self.description@,
            is_completed: self.is_completed,
            created_at: self.created_at,
            dirty: self.dirty,
        }
    }
}

impl ItemView {
    /// The item `id` of the list `list_id` with these fields, clean, given
    /// what reading its creation time gave. Without a creation time there
    /// is no item.
    pub open spec fn loaded_at(
        id: ItemId,
        list_id: TodoListId,
        description: Seq<char>,
        is_completed: bool,
        created_at: Option<Timestamp>,
    ) -> Result<ItemView, Error> {
        match created_at {
            Some(created_at) => Ok(
                ItemView { id, list_id, description, is_completed, created_at, dirty: false },
            ),
            None => Err(Error::MalformedTimestamp),
        }
    }

    /// The item that the store has just inserted into the list `list_id`
    /// with this description: not completed, and clean.
    pub open spec fn created(
        list_id: TodoListId,
        description: Seq<char>,
        inserted: InsertedView,
    ) -> Result<ItemView, Error> {
        ItemView::loaded_at(
            ItemId(inserted.id),
            list_id,
            description,
            false,
            Timestamp::parsed(inserted.created_at),
        )
    }

    /// The item that a row of the item table holds, clean.
    pub open spec fn loaded(
        id: ItemId,
        list_id: TodoListId,
        description: Seq<char>,
        is_completed: bool,
        created_at: Seq<char>,
    ) -> Result<ItemView, Error> {
        ItemView::loaded_at(id, list_id, description, is_completed, Timestamp::parsed(created_at))
    }

    /// The item that `record`, read for the list `list_id`, holds.
    pub open spec fn from_record(list_id: TodoListId, record: ItemRecordView) -> Result<
        ItemView,
        Error,
    > {
        ItemView::loaded_at(
            ItemId(record.id),
            list_id,
            record.description,
            record.is_completed,
            record.created_at,
        )
    }

    /// The item that `row`, read for the list `list_id`, holds.
    pub open spec fn from_row(list_id: TodoListId, row: ItemRowView) -> Result<ItemView, Error> {
        ItemView::from_record(list_id, row.parsed())
    }

    /// This item after `set_description`: dirty if the text changed.
    pub open spec fn with_description(self, description: Seq<char>) -> ItemView {
        ItemView { description, dirty: self.dirty || description != self.description, ..self }
    }

    /// This item after `set_is_completed`: dirty if the flag changed.
    pub open spec fn with_is_completed(self, is_completed: bool) -> ItemView {
        ItemView { is_completed, dirty: self.dirty || is_completed != self.is_completed, ..self }
    }

    /// The write that saving this item performs, if it performs one.
    pub open spec fn write(self) -> Option<WriteView> {
        if self.dirty {
            Some(
                WriteView::Item {
                    item_id: self.id,
                    description: self.description,
                    is_completed: self.is_completed,
                },
            )
        } else {
            None
        }
    }

    /// This item once its write has reached the store.
    pub open spec fn saved(self) -> ItemView {
        ItemView { dirty: false, ..self }
    }
}

/// Setting the description to what it is changes nothing: a clean item stays
/// clean, a dirty one dirty.
pub proof fn lemma_same_description_changes_nothing(item: ItemView)
    ensures
        item.with_description(item.description) == item,
        item.with_description(item.description).dirty == item.dirty,
{
}

/// Setting the completion flag to what it is changes nothing.
pub proof fn lemma_same_completion_changes_nothing(item: ItemView)
    ensures
        item.with_is_completed(item.is_completed) == item,
{
}

impl Clone for Item {
    fn clone(&self) -> (copy: Item)
        ensures
            copy@ == self@,
    {
        Item {
            id: self.id,
            list_id: self.list_id,
            description: self.description.clone(),
            is_completed: self.is_completed,
            created_at: self.created_at,
            dirty: self.dirty,
        }
    }
}

impl Item {
    /// The item that the store has just inserted into the list `list_id`.
    ///
    /// `inserted` is what the insertion returned. Fails only where the
    /// creation time cannot be read.
    pub fn new(list_id: TodoListId, description: String, inserted: &Inserted) -> (item: Result<
        Item,
        Error,
    >)
        ensures
            item matches Ok(it) ==> Ok::<ItemView, Error>(it@) == ItemView::created(
                list_id,
                description@,
                inserted@,
            ),
            item matches Err(e) ==> Err::<ItemView, Error>(e) == ItemView::created(
                list_id,
                description@,
                inserted@,
            ),
    {
        Item::load_at(
            ItemId(inserted.id),
            list_id,
            description,
            false,
            Timestamp::parse(inserted.created_at.as_str()),
        )
    }

    /// The item `id` of the list `list_id` with these fields, given what
    /// reading its creation time gave.
    ///
    /// Fails exactly where there is no creation time.
    pub fn load_at(
        id: ItemId,
        list_id: TodoListId,
        description: String,
        is_completed: bool,
        created_at: Option<Timestamp>,
    ) -> (item: Result<Item, Error>)
        ensures
            item matches Ok(it) ==> Ok::<ItemView, Error>(it@) == ItemView::loaded_at(
                id,
                list_id,
                description@,
                is_completed,
                created_at,
            ),
            item matches Err(e) ==> Err::<ItemView, Error>(e) == ItemView::loaded_at(
                id,
                list_id,
                description@,
                is_completed,
                created_at,
            ),
    {
        match created_at {
            Some(created_at) => Ok(
                Item { id, list_id, description, is_completed, created_at, dirty: false },
            ),
            None => Err(Error::MalformedTimestamp),
        }
    }

    /// The item `id` as a row of the item table holds it; `created_at` is
    /// the creation time as the store writes it.
    ///
    /// Fails only where the creation time cannot be read.
    pub fn load(
        id: ItemId,
        list_id: TodoListId,
        description: String,
        is_completed: bool,
        created_at: &str,
    ) -> (item: Result<Item, Error>)
        ensures
            item matches Ok(it) ==> Ok::<ItemView, Error>(it@) == ItemView::loaded(
                id,
                list_id,
                description@,
                is_completed,
                created_at@,
            ),
            item matches Err(e) ==> Err::<ItemView, Error>(e) == ItemView::loaded(
                id,
                list_id,
                description@,
                is_completed,
                created_at@,
            ),
    {
        Item::load_at(id, list_id, description, is_completed, Timestamp::parse(created_at))
    }

    pub fn id(&self) -> (id: ItemId)
        ensures
            id == self@.id,
    {
        self.id
    }

    pub fn list_id(&self) -> (list_id: TodoListId)
        ensures
            list_id == self@.list_id,
    {
        self.list_id
    }

    pub fn description(&self) -> (description: &String)
        ensures
            description@ == self@.description,
    {
        &self.description
    }

    pub fn is_completed(&self) -> (is_completed: bool)
        ensures
            is_completed == self@.is_completed,
    {
        self.is_completed
    }

    pub fn created_at(&self) -> (created_at: Timestamp)
        ensures
            created_at == self@.created_at,
    {
        self.created_at
    }

    /// Whether the description or the completion flag changed since the
    /// item was last read from or written to the store.
    pub fn dirty(&self) -> (dirty: bool)
        ensures
            dirty == self@.dirty,
    {
        self.dirty
    }

    /// Replaces the description. The item becomes dirty only if the new
    /// text differs from the old.
    pub fn set_description(&mut self, description: String)
        ensures
            final(self)@ == old(self)@.with_description(description@),
    {
        let changed = !(description == self.description);
        self.dirty = self.dirty || changed;
        self.description = description;
    }

    /// Sets the completion flag. The item becomes dirty only if the flag
    /// changes.
    pub fn set_is_completed(&mut self, is_completed: bool)
        ensures
            final(self)@ == old(self)@.with_is_completed(is_completed),
    {
        self.dirty = self.dirty || is_completed != self.is_completed;
        self.is_completed = is_completed;
    }

    /// The write that brings the store up to date with this item: none
    /// if the item is clean.
    pub fn save(&self) -> (write: Option<Write>)
        ensures
            write is Some == self@.dirty,
            write matches Some(w) ==> Some(w@) == self@.write(),
    {
        if self.dirty {
            Some(
                Write::Item {
                    item_id: self.id,
                    description: self.description.clone(),
                    is_completed: self.is_completed,
                },
            )
        } else {
            None
        }
    }

    /// Records that the store holds this item as it is now.
    pub fn mark_saved(&mut self)
        ensures
            final(self)@ == old(self)@.saved(),
    {
        self.dirty = false;
    }

    /// Whether deleting an item removed a row, given the number of rows
    /// that the store reports as affected.
    pub fn delete(affected_rows: u64) -> (was_present: bool)
        ensures
            was_present == (affected_rows > 0),
    {
        affected_rows > 0
    }
}

} // verus!
