//! A todo list with its items, as a working copy of what the store holds.
//!
//! Nothing here reaches the store. Each operation that the store takes part
//! in is given what the store returned, and says what is to be written.

use crate::error::Error;
use crate::ids::{ItemId, TodoListId};
use crate::item::{
    Inserted, InsertedView, Item, ItemRecord, ItemRecordView, ItemRow, ItemRowView, ItemView,
    Write, WriteView,
};
use crate::items::{
    completed, described, gathered, holds, item_writes, lemma_changes_keep_order,
    lemma_gathered_is_ordered, lemma_rank_splits, lemma_saved_items_write_nothing,
    lemma_written_items_keep_order, lemma_written_items_leave_the_rest, lookup, ordered,
    owned_by, parse_rows, saved_items, with_item, without_item, written_items, Items,
};
use crate::timestamp::Timestamp;
use vstd::prelude::*;

verus! {

/// A list as the store returns it in a row of its list table.
#[derive(Debug, Clone, PartialEq, Eq)]
pub struct ListRow {
    pub title: String,
    /// The creation time as the store writes it.
    pub created_at: String,
}

/// The mathematical content of a [`ListRow`].
pub struct ListRowView {
    pub title: Seq<char>,
    pub created_at: Seq<char>,
}

impl View for ListRow {
    type V = ListRowView;

    open spec fn view(&self) -> ListRowView {
        ListRowView { title: self.title@, created_at: self.created_at@ }
    }
}

/// A list row whose creation time has been read: `None` where the text of
/// the row was no timestamp.
#[derive(Debug, Clone, PartialEq, Eq)]
pub struct ListRecord {
    pub title: String,
    pub created_at: Option<Timestamp>,
}

/// The mathematical content of a [`ListRecord`].
pub struct ListRecordView {
    pub title: Seq<char>,
    pub created_at: Option<Timestamp>,
}

impl View for ListRecord {
    type V = ListRecordView;

    open spec fn view(&self) -> ListRecordView {
        ListRecordView { title: self.title@, created_at: self.created_at }
    }
}

impl ListRowView {
    /// This row with its creation time read.
    pub open spec fn parsed(self) -> ListRecordView {
        ListRecordView { title: self.title, created_at: Timestamp::parsed(self.created_at) }
    }
}

impl ListRow {
    /// This row with its creation time read.
    pub fn parse(self) -> (record: ListRecord)
        ensures
            record@ == self@.parsed(),
    {
        let created_at = Timestamp::parse(self.created_at.as_str());
        ListRecord { title: self.title, created_at }
    }
}

/// A todo list and its items.
///
/// `dirty` says that the title differs from what was last read from or
/// written to the store. Every item belongs to this list.
#[derive(Debug, PartialEq, Eq, Hash)]
pub struct TodoList {
    id: TodoListId,
    title: String,
    created_at: Timestamp,
    items: Items,
    dirty: bool,
}

/// The mathematical content of a [`TodoList`]: its fields, with the items as
/// a sequence in key order.
pub struct TodoListView {
    pub id: TodoListId,
    pub title: Seq<char>,
    pub created_at: Timestamp,
    pub items: Seq<ItemView>,
    pub dirty: bool,
}

impl View for TodoList {
    type V = TodoListView;

    closed spec fn view(&self) -> TodoListView {
        TodoListView {
            id: self.id,
            title: self.title@,
            created_at: self.created_at,
            items: self.items@,
            dirty: self.dirty,
        }
    }
}

impl TodoListView {
    /// What holds of every list: the items are in key order, no identifier
    /// occurs twice, and each item belongs to this list.
    pub open spec fn wf(self) -> bool {
        ordered(self.items) && owned_by(self.items, self.id)
    }

    /// The list `id` under this title, without items and clean, given what
    /// reading its creation time gave. Without a creation time there is no
    /// list.
    pub open spec fn new_at(title: Seq<char>, id: TodoListId, created_at: Option<Timestamp>) -> Result<
        TodoListView,
        Error,
    > {
        match created_at {
            Some(created_at) => Ok(
                TodoListView { id, title, created_at, items: Seq::empty(), dirty: false },
            ),
            None => Err(Error::MalformedTimestamp),
        }
    }

    /// The list that the store has just inserted under this title: without
    /// items, and clean.
    pub open spec fn created(title: Seq<char>, inserted: InsertedView) -> Result<
        TodoListView,
        Error,
    > {
        TodoListView::new_at(
            title,
            TodoListId(inserted.id),
            Timestamp::parsed(inserted.created_at),
        )
    }

    /// The list `id` as its record and the records of its items hold it,
    /// clean. Without a record there is no such list.
    pub open spec fn loaded_at(
        id: TodoListId,
        record: Option<ListRecordView>,
        records: Seq<ItemRecordView>,
    ) -> Result<TodoListView, Error> {
        match record {
            None => Err(Error::NotFound { list_id: id }),
            Some(record) => match record.created_at {
                None => Err(Error::MalformedTimestamp),
                Some(created_at) => match gathered(id, records) {
                    Err(error) => Err(error),
                    Ok(items) => Ok(
                        TodoListView { id, title: record.title, created_at, items, dirty: false },
                    ),
                },
            },
        }
    }

    /// The list `id` as its row and the rows of its items hold it, clean:
    /// what their records hold, once the creation time of each is read.
    pub open spec fn loaded(
        id: TodoListId,
        row: Option<ListRowView>,
        rows: Seq<ItemRowView>,
    ) -> Result<TodoListView, Error> {
        TodoListView::loaded_at(
            id,
            match row {
                Some(row) => Some(row.parsed()),
                None => None,
            },
            rows.map_values(|row: ItemRowView| row.parsed()),
        )
    }

    /// This list after `set_title`: dirty if the title changed.
    pub open spec fn with_title(self, title: Seq<char>) -> TodoListView {
        TodoListView { title, dirty: self.dirty || title != self.title, ..self }
    }

    /// Whether the list holds an item `id`.
    pub open spec fn contains(self, id: ItemId) -> bool {
        holds(self.items, id)
    }

    /// The item `id`, if the list holds it.
    pub open spec fn item(self, id: ItemId) -> Option<ItemView> {
        lookup(self.items, id)
    }

    /// The writes that saving performs, in order: those of the dirty items,
    /// then that of the title if it changed.
    pub open spec fn writes(self) -> Seq<WriteView> {
        if self.dirty {
            item_writes(self.items).push(WriteView::List { list_id: self.id, title: self.title })
        } else {
            item_writes(self.items)
        }
    }

    /// This list once all its writes have reached the store.
    pub open spec fn saved(self) -> TodoListView {
        TodoListView { items: saved_items(self.items), dirty: false, ..self }
    }

    /// This list once the first `count` writes of a save have reached the
    /// store and the rest have not: what those writes wrote is clean, the
    /// rest is as dirty as before.
    pub open spec fn written(self, count: int) -> TodoListView {
        TodoListView {
            items: written_items(self.items, count),
            dirty: self.dirty && count <= item_writes(self.items).len(),
            ..self
        }
    }

    /// What `add_item_at` returns: the new identifier, or why the item
    /// cannot join the list.
    pub open spec fn addition_at(
        self,
        description: Seq<char>,
        id: ItemId,
        created_at: Option<Timestamp>,
    ) -> Result<ItemId, Error> {
        match ItemView::loaded_at(id, self.id, description, false, created_at) {
            Err(error) => Err(error),
            Ok(item) => if self.contains(item.id) {
                Err(Error::DuplicateItem { id: item.id })
            } else {
                Ok(item.id)
            },
        }
    }

    /// This list after `add_item_at`: with the new item where the addition
    /// succeeds, unchanged where it fails.
    pub open spec fn added_at(
        self,
        description: Seq<char>,
        id: ItemId,
        created_at: Option<Timestamp>,
    ) -> TodoListView {
        match ItemView::loaded_at(id, self.id, description, false, created_at) {
            Ok(item) if !self.contains(item.id) => TodoListView {
                items: with_item(self.items, item),
                ..self
            },
            _ => self,
        }
    }

    /// What `add_item` returns: the new identifier, or why the row that the
    /// store inserted cannot join the list.
    pub open spec fn addition(self, description: Seq<char>, inserted: InsertedView) -> Result<
        ItemId,
        Error,
    > {
        self.addition_at(description, ItemId(inserted.id), Timestamp::parsed(inserted.created_at))
    }

    /// This list after `add_item`: with the new item where the addition
    /// succeeds, unchanged where it fails.
    pub open spec fn added(self, description: Seq<char>, inserted: InsertedView) -> TodoListView {
        self.added_at(description, ItemId(inserted.id), Timestamp::parsed(inserted.created_at))
    }

    /// What `remove_item` returns when the store says `did_remove`: that
    /// answer where memory agrees with it, an error where it does not.
    pub open spec fn removal(self, id: ItemId, did_remove: bool) -> Result<bool, Error> {
        if did_remove == self.contains(id) {
            Ok(did_remove)
        } else {
            Err(Error::Inconsistent { id, in_store: did_remove })
        }
    }

    /// This list without the item `id`.
    pub open spec fn removed(self, id: ItemId) -> TodoListView {
        TodoListView { items: without_item(self.items, id), ..self }
    }

    /// This list after the description of the item `id` was set.
    pub open spec fn with_item_description(self, id: ItemId, description: Seq<char>) -> TodoListView {
        TodoListView { items: described(self.items, id, description), ..self }
    }

    /// This list after the completion flag of the item `id` was set.
    pub open spec fn with_item_completed(self, id: ItemId, is_completed: bool) -> TodoListView {
        TodoListView { items: completed(self.items, id, is_completed), ..self }
    }
}

/// The mathematical content of a record that may be missing.
pub open spec fn record_view(record: Option<ListRecord>) -> Option<ListRecordView> {
    match record {
        Some(record) => Some(record@),
        None => None,
    }
}

/// The mathematical content of a row that may be missing.
pub open spec fn row_view(row: Option<ListRow>) -> Option<ListRowView> {
    match row {
        Some(row) => Some(row@),
        None => None,
    }
}

/// The `(identifier, title)` pairs that the rows of the list table hold.
pub open spec fn listed(rows: Seq<(u32, Seq<char>)>) -> Seq<(TodoListId, Seq<char>)> {
    rows.map_values(|row: (u32, Seq<char>)| (TodoListId(row.0), row.1))
}

/// Saving twice writes once: when the writes of a save have reached the
/// store, a second save finds nothing to write.
pub proof fn lemma_save_is_idempotent(list: TodoListView)
    ensures
        list.saved().writes() == Seq::<WriteView>::empty(),
        list.saved().saved() == list.saved(),
{
    lemma_saved_items_write_nothing(list.items);
    assert(saved_items(saved_items(list.items)) == saved_items(list.items));
}

/// A save that fails after `count` writes leaves exactly the other writes
/// to be made: what was written is clean, and what was not written is
/// still dirty and will be written by the next save, in the same order. A
/// save whose writes were all made leaves the list saved.
pub proof fn lemma_failed_save_leaves_the_rest(list: TodoListView, count: int)
    requires
        0 <= count <= list.writes().len(),
    ensures
        list.written(count).writes() == list.writes().skip(count),
        count == list.writes().len() ==> list.written(count) == list.saved(),
        count == 0 ==> list.written(count) == list,
        list.wf() ==> list.written(count).wf(),
{
    lemma_written_items_leave_the_rest(list.items, count);
    lemma_written_items_keep_order(list.items, count);
    lemma_saved_items_write_nothing(list.items);
    if count <= item_writes(list.items).len() {
        assert(list.written(count).writes() == list.writes().skip(count));
    } else {
        assert(list.written(count).writes() == list.writes().skip(count));
    }
}

/// An item that was added can be removed again under the identifier that
/// the addition returned: the removal reports `true`, and the list is what
/// it was before the two, without that identifier.
pub proof fn lemma_add_then_remove(
    list: TodoListView,
    description: Seq<char>,
    inserted: InsertedView,
)
    requires
        list.wf(),
        list.addition(description, inserted) is Ok,
    ensures
        ({
            let id = list.addition(description, inserted)->Ok_0;
            let after = list.added(description, inserted);
            &&& after.wf()
            &&& after.contains(id)
            &&& after.removal(id, true) == Ok::<bool, Error>(true)
            &&& !after.removed(id).contains(id)
            &&& after.removed(id) == list
        }),
{
    let item = ItemView::created(list.id, description, inserted)->Ok_0;
    lemma_changes_keep_order(list.items, item);
    lemma_rank_splits(list.items, item.id);
    let after = list.added(description, inserted);
    assert(after.removed(item.id).items == list.items);
}

impl Clone for TodoList {
    fn clone(&self) -> (copy: TodoList)
        ensures
            copy@ == self@,
    {
        proof {
            use_type_invariant(self);
        }
        TodoList {
            id: self.id,
            title: self.title.clone(),
            created_at: self.created_at,
            items: self.items.clone(),
            dirty: self.dirty,
        }
    }
}

impl TodoList {
    #[verifier::type_invariant]
    spec fn items_belong(self) -> bool {
        owned_by(self.items@, self.id)
    }

    /// The `(identifier, title)` pairs of all lists, from the rows that the
    /// store returned, in their order.
    pub fn list_all(rows: &Vec<(u32, String)>) -> (lists: Vec<(TodoListId, String)>)
        ensures
            lists@.map_values(|list: (TodoListId, String)| (list.0, list.1@)) == listed(
                rows@.map_values(|row: (u32, String)| (row.0, row.1@)),
            ),
    {
        let mut lists: Vec<(TodoListId, String)> = Vec::new();
        let mut index: usize = 0;
        while index < rows.len()
            invariant
                index <= rows.len(),
                lists@.len() == index,
                forall|j: int|
                    0 <= j < index ==> lists@[j].0 == TodoListId(rows@[j].0) && lists@[j].1@
                        == rows@[j].1@,
            decreases rows.len() - index,
        {
            lists.push((TodoListId(rows[index].0), rows[index].1.clone()));
            index += 1;
        }
        assert(lists@.map_values(|list: (TodoListId, String)| (list.0, list.1@)) == listed(
            rows@.map_values(|row: (u32, String)| (row.0, row.1@)),
        ));
        lists
    }

    /// The list that the store has just inserted under `title`.
    ///
    /// `inserted` is what the insertion returned. Fails only where the
    /// creation time cannot be read.
    pub fn new(title: String, inserted: &Inserted) -> (list: Result<TodoList, Error>)
        ensures
            list matches Ok(l) ==> Ok::<TodoListView, Error>(l@) == TodoListView::created(
                title@,
                inserted@,
            ) && l@.wf(),
            list matches Err(e) ==> Err::<TodoListView, Error>(e) == TodoListView::created(
                title@,
                inserted@,
            ),
    {
        TodoList::new_at(
            title,
            TodoListId(inserted.id),
            Timestamp::parse(inserted.created_at.as_str()),
        )
    }

    /// The list `id` under `title`, given what reading its creation time
    /// gave.
    ///
    /// Fails exactly where there is no creation time.
    pub fn new_at(title: String, id: TodoListId, created_at: Option<Timestamp>) -> (list: Result<
        TodoList,
        Error,
    >)
        ensures
            list matches Ok(l) ==> Ok::<TodoListView, Error>(l@) == TodoListView::new_at(
                title@,
                id,
                created_at,
            ) && l@.wf(),
            list matches Err(e) ==> Err::<TodoListView, Error>(e) == TodoListView::new_at(
                title@,
                id,
                created_at,
            ),
    {
        match created_at {
            Some(created_at) => Ok(
                TodoList { id, title, created_at, items: Items::new(), dirty: false },
            ),
            None => Err(Error::MalformedTimestamp),
        }
    }

    /// The list `id` with all its items, from its record and the records
    /// of its items.
    ///
    /// Fails where there is no record for the list, where a record has no
    /// creation time, or where an item identifier occurs twice.
    pub fn load_at(id: TodoListId, record: Option<ListRecord>, records: &Vec<ItemRecord>) -> (list:
        Result<TodoList, Error>)
        ensures
            list matches Ok(l) ==> Ok::<TodoListView, Error>(l@) == TodoListView::loaded_at(
                id,
                record_view(record),
                records@.map_values(|r: ItemRecord| r@),
            ) && l@.wf(),
            list matches Err(e) ==> Err::<TodoListView, Error>(e) == TodoListView::loaded_at(
                id,
                record_view(record),
                records@.map_values(|r: ItemRecord| r@),
            ),
    {
        let record = match record {
            Some(record) => record,
            None => {
                return Err(Error::NotFound { list_id: id });
            },
        };
        let created_at = match record.created_at {
            Some(created_at) => created_at,
            None => {
                return Err(Error::MalformedTimestamp);
            },
        };
        let items = match Items::collect(id, records) {
            Ok(items) => items,
            Err(error) => {
                return Err(error);
            },
        };
        proof {
            lemma_gathered_is_ordered(id, records@.map_values(|r: ItemRecord| r@));
        }
        Ok(TodoList { id, title: record.title, created_at, items, dirty: false })
    }

    /// The list `id` with all its items, from its row and the rows of its
    /// items, as the store returned them.
    ///
    /// Fails where the store had no row for the list, where a creation
    /// time cannot be read, or where an item identifier occurs twice.
    pub fn load(id: TodoListId, row: Option<ListRow>, rows: &Vec<ItemRow>) -> (list: Result<
        TodoList,
        Error,
    >)
        ensures
            list matches Ok(l) ==> Ok::<TodoListView, Error>(l@) == TodoListView::loaded(
                id,
                row_view(row),
                rows@.map_values(|r: ItemRow| r@),
            ) && l@.wf(),
            list matches Err(e) ==> Err::<TodoListView, Error>(e) == TodoListView::loaded(
                id,
                row_view(row),
                rows@.map_values(|r: ItemRow| r@),
            ),
    {
        let record = match row {
            Some(row) => Some(row.parse()),
            None => None,
        };
        let records = parse_rows(rows);
        TodoList::load_at(id, record, &records)
    }

    /// Whether deleting a list removed a row, given the number of rows that
    /// the store reports as affected.
    pub fn delete(affected_rows: u64) -> (was_present: bool)
        ensures
            was_present == (affected_rows > 0),
    {
        affected_rows > 0
    }

    pub fn id(&self) -> (id: TodoListId)
        ensures
            id == self@.id,
    {
        self.id
    }

    pub fn title(&self) -> (title: &String)
        ensures
            title@ == self@.title,
    {
        &self.title
    }

    pub fn created_at(&self) -> (created_at: Timestamp)
        ensures
            created_at == self@.created_at,
    {
        self.created_at
    }

    /// The items, in key order.
    pub fn items(&self) -> (items: &Items)
        ensures
            items@ == self@.items,
            self@.wf(),
    {
        proof {
            use_type_invariant(self);
        }
        self.items.in_key_order();
        &self.items
    }

    /// Whether the title changed since the list was last read from or
    /// written to the store.
    pub fn dirty(&self) -> (dirty: bool)
        ensures
            dirty == self@.dirty,
    {
        self.dirty
    }

    /// Replaces the title. The list becomes dirty only if the new title
    /// differs from the old.
    pub fn set_title(&mut self, title: String)
        ensures
            final(self)@ == old(self)@.with_title(title@),
    {
        proof {
            use_type_invariant(&*self);
        }
        let changed = !(title == self.title);
        self.dirty = self.dirty || changed;
        self.title = title;
    }

    /// The item `item_id`.
    pub fn item(&self, item_id: ItemId) -> (item: Option<&Item>)
        ensures
            item is Some == self@.contains(item_id),
            item matches Some(it) ==> Some(it@) == self@.item(item_id),
    {
        self.items.get(item_id)
    }

    /// The identifiers of the items, in key order.
    pub fn item_ids(&self) -> (ids: Vec<ItemId>)
        ensures
            ids@ == self@.items.map_values(|item: ItemView| item.id),
    {
        self.items.ids()
    }

    /// Sets the description of the item `item_id`. Returns whether that
    /// item will be written by the next save, or `None` if the list holds
    /// no such item.
    pub fn set_item_description(&mut self, item_id: ItemId, description: String) -> (dirty: Option<
        bool,
    >)
        ensures
            final(self)@ == old(self)@.with_item_description(item_id, description@),
            final(self)@.wf(),
            dirty == match old(self)@.item(item_id) {
                Some(item) => Some(item.with_description(description@).dirty),
                None => None,
            },
    {
        proof {
            use_type_invariant(&*self);
        }
        let mut items = Items::new();
        core::mem::swap(&mut self.items, &mut items);
        let dirty = items.set_description(item_id, description);
        items.in_key_order();
        self.items = items;
        dirty
    }

    /// Sets the completion flag of the item `item_id`. Returns whether
    /// that item will be written by the next save, or `None` if the list
    /// holds no such item.
    pub fn set_item_completed(&mut self, item_id: ItemId, is_completed: bool) -> (dirty: Option<
        bool,
    >)
        ensures
            final(self)@ == old(self)@.with_item_completed(item_id, is_completed),
            final(self)@.wf(),
            dirty == match old(self)@.item(item_id) {
                Some(item) => Some(item.with_is_completed(is_completed).dirty),
                None => None,
            },
    {
        proof {
            use_type_invariant(&*self);
        }
        let mut items = Items::new();
        core::mem::swap(&mut self.items, &mut items);
        let dirty = items.set_is_completed(item_id, is_completed);
        items.in_key_order();
        self.items = items;
        dirty
    }

    /// The writes that bring the store up to date with this list, in the
    /// order in which they are to be made: one for each dirty item, in key
    /// order, then one for the title if it changed. A clean list needs none.
    pub fn save(&self) -> (writes: Vec<Write>)
        ensures
            writes@.map_values(|write: Write| write@) == self@.writes(),
    {
        let mut writes = self.items.save();
        if self.dirty {
            let ghost before = writes@.map_values(|write: Write| write@);
            let write = Write::List { list_id: self.id, title: self.title.clone() };
            writes.push(write);
            assert(writes@.map_values(|write: Write| write@) == before.push(write@));
        }
        writes
    }

    /// Records that all writes of `save` have reached the store: the list
    /// and its items are clean.
    pub fn mark_saved(&mut self)
        ensures
            final(self)@ == old(self)@.saved(),
            final(self)@.wf(),
    {
        proof {
            use_type_invariant(&*self);
        }
        let mut items = Items::new();
        core::mem::swap(&mut self.items, &mut items);
        items.mark_saved();
        items.in_key_order();
        self.items = items;
        self.dirty = false;
    }

    /// Records that the first `count` writes of `save` have reached the
    /// store and the rest have not, as after a save that failed at its
    /// write number `count`, counted from zero: what was written is clean,
    /// the rest stays dirty. With `count` at or above the number of writes
    /// this is `mark_saved`.
    pub fn mark_written(&mut self, count: usize)
        ensures
            final(self)@ == old(self)@.written(count as int),
            final(self)@.wf(),
    {
        proof {
            use_type_invariant(&*self);
        }
        let mut items = Items::new();
        core::mem::swap(&mut self.items, &mut items);
        proof {
            lemma_written_items_keep_order(items@, count as int);
        }
        let marked = items.mark_written(count);
        items.in_key_order();
        self.items = items;
        if marked < count {
            self.dirty = false;
        }
    }

    /// Takes in the item that the store has just inserted for this list
    /// with `description`, and returns its identifier.
    ///
    /// Fails, and leaves the list as it was, where the creation time
    /// cannot be read or the list already holds the identifier.
    pub fn add_item(&mut self, description: String, inserted: &Inserted) -> (item_id: Result<
        ItemId,
        Error,
    >)
        ensures
            item_id == old(self)@.addition(description@, inserted@),
            final(self)@ == old(self)@.added(description@, inserted@),
            final(self)@.wf(),
    {
        self.add_item_at(
            description,
            ItemId(inserted.id),
            Timestamp::parse(inserted.created_at.as_str()),
        )
    }

    /// Takes in the item `id` with `description`, given what reading its
    /// creation time gave, and returns its identifier.
    ///
    /// Fails, and leaves the list as it was, where there is no creation
    /// time or the list already holds the identifier.
    pub fn add_item_at(
        &mut self,
        description: String,
        id: ItemId,
        created_at: Option<Timestamp>,
    ) -> (item_id: Result<ItemId, Error>)
        ensures
            item_id == old(self)@.addition_at(description@, id, created_at),
            final(self)@ == old(self)@.added_at(description@, id, created_at),
            final(self)@.wf(),
    {
        proof {
            use_type_invariant(&*self);
        }
        self.items.in_key_order();
        let item = match Item::load_at(id, self.id, description, false, created_at) {
            Ok(item) => item,
            Err(error) => {
                return Err(error);
            },
        };
        let item_id = item.id();
        if self.items.get(item_id).is_some() {
            return Err(Error::DuplicateItem { id: item_id });
        }
        let mut items = Items::new();
        core::mem::swap(&mut self.items, &mut items);
        proof {
            lemma_rank_splits(items@, item_id);
        }
        items.insert(item);
        self.items = items;
        Ok(item_id)
    }

    /// Takes out the item `item_id`, which the store has been asked to
    /// delete; `did_remove` says whether the store held it.
    ///
    /// Returns `did_remove`, unless memory disagrees about the item having
    /// existed, which is an error. Either way the list no longer holds the
    /// item.
    pub fn remove_item(&mut self, item_id: ItemId, did_remove: bool) -> (removed: Result<
        bool,
        Error,
    >)
        ensures
            removed == old(self)@.removal(item_id, did_remove),
            final(self)@ == old(self)@.removed(item_id),
            final(self)@.wf(),
    {
        proof {
            use_type_invariant(&*self);
        }
        let mut items = Items::new();
        core::mem::swap(&mut self.items, &mut items);
        let in_memory = items.remove(item_id).is_some();
        self.items = items;
        if did_remove == in_memory {
            Ok(did_remove)
        } else {
            Err(Error::Inconsistent { id: item_id, in_store: did_remove })
        }
    }
}

} // verus!
