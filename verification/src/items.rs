//! The items of one list, keyed by identifier and kept in key order.

use crate::error::Error;
use crate::ids::{ItemId, TodoListId};
use crate::item::{
    Item, ItemRecord, ItemRecordView, ItemRow, ItemRowView, ItemView, Write, WriteView,
};
use vstd::prelude::*;

verus! {

/// Whether the identifiers in `items` increase strictly from front to back.
pub open spec fn ordered(items: Seq<ItemView>) -> bool {
    forall|i: int, j: int| 0 <= i < j < items.len() ==> items[i].id.0 < items[j].id.0
}

/// The number of items whose identifier is smaller than `id`. In an ordered
/// sequence this is where `id` stands, or would stand.
pub open spec fn rank(items: Seq<ItemView>, id: ItemId) -> int
    decreases items.len(),
{
    if items.len() == 0 {
        0
    } else {
        rank(items.drop_last(), id) + if items.last().id.0 < id.0 {
            1int
        } else {
            0int
        }
    }
}

/// Whether an item with the identifier `id` is among `items`.
pub open spec fn holds(items: Seq<ItemView>, id: ItemId) -> bool {
    0 <= rank(items, id) < items.len() && items[rank(items, id)].id == id
}

/// The item with the identifier `id`, if there is one.
pub open spec fn lookup(items: Seq<ItemView>, id: ItemId) -> Option<ItemView> {
    if holds(items, id) {
        Some(items[rank(items, id)])
    } else {
        None
    }
}

/// `items` as a map from identifier to item.
pub open spec fn as_map(items: Seq<ItemView>) -> Map<ItemId, ItemView> {
    Map::new(|id: ItemId| holds(items, id), |id: ItemId| items[rank(items, id)])
}

/// `items` with `item` under its identifier, in place of what stood there.
pub open spec fn with_item(items: Seq<ItemView>, item: ItemView) -> Seq<ItemView> {
    if holds(items, item.id) {
        items.update(rank(items, item.id), item)
    } else {
        items.insert(rank(items, item.id), item)
    }
}

/// `items` without the identifier `id`.
pub open spec fn without_item(items: Seq<ItemView>, id: ItemId) -> Seq<ItemView> {
    if holds(items, id) {
        items.remove(rank(items, id))
    } else {
        items
    }
}

/// The writes that saving `items` performs: one for each dirty item, in key
/// order.
pub open spec fn item_writes(items: Seq<ItemView>) -> Seq<WriteView>
    decreases items.len(),
{
    if items.len() == 0 {
        Seq::empty()
    } else {
        match items.last().write() {
            Some(write) => item_writes(items.drop_last()).push(write),
            None => item_writes(items.drop_last()),
        }
    }
}

/// `items` once all their writes have reached the store.
pub open spec fn saved_items(items: Seq<ItemView>) -> Seq<ItemView> {
    items.map_values(|item: ItemView| item.saved())
}

/// `items` once the first `count` of their writes have reached the store:
/// an item is clean if fewer than `count` dirty items stand before it, and
/// else as it was.
pub open spec fn written_items(items: Seq<ItemView>, count: int) -> Seq<ItemView> {
    Seq::new(
        items.len(),
        |i: int|
            if item_writes(items.take(i)).len() < count {
                items[i].saved()
            } else {
                items[i]
            },
    )
}

/// `items` after the description of `id` was set, if `id` is held.
pub open spec fn described(items: Seq<ItemView>, id: ItemId, description: Seq<char>) -> Seq<
    ItemView,
> {
    match lookup(items, id) {
        Some(item) => items.update(rank(items, id), item.with_description(description)),
        None => items,
    }
}

/// `items` after the completion flag of `id` was set, if `id` is held.
pub open spec fn completed(items: Seq<ItemView>, id: ItemId, is_completed: bool) -> Seq<ItemView> {
    match lookup(items, id) {
        Some(item) => items.update(rank(items, id), item.with_is_completed(is_completed)),
        None => items,
    }
}

/// The items that `records`, read for the list `list_id`, hold. The
/// records are taken in the order in which the store returned their rows;
/// the first one without a creation time, or whose identifier came before,
/// fails the whole.
pub open spec fn gathered(list_id: TodoListId, records: Seq<ItemRecordView>) -> Result<
    Seq<ItemView>,
    Error,
>
    decreases records.len(),
{
    if records.len() == 0 {
        Ok(Seq::empty())
    } else {
        match gathered(list_id, records.drop_last()) {
            Err(error) => Err(error),
            Ok(items) => match ItemView::from_record(list_id, records.last()) {
                Err(error) => Err(error),
                Ok(item) => if holds(items, item.id) {
                    Err(Error::DuplicateItem { id: item.id })
                } else {
                    Ok(with_item(items, item))
                },
            },
        }
    }
}

/// The items that `rows`, read for the list `list_id`, hold: what their
/// records hold, once the creation time of each is read.
pub open spec fn collected(list_id: TodoListId, rows: Seq<ItemRowView>) -> Result<
    Seq<ItemView>,
    Error,
> {
    gathered(list_id, rows.map_values(|row: ItemRowView| row.parsed()))
}

/// Whether every one of `items` belongs to the list `list_id`.
pub open spec fn owned_by(items: Seq<ItemView>, list_id: TodoListId) -> bool {
    forall|i: int| 0 <= i < items.len() ==> (#[trigger] items[i]).list_id == list_id
}

/// In an ordered sequence the rank of `id` is the one position that has only
/// smaller identifiers before it and none at or after it.
pub proof fn lemma_rank_is(items: Seq<ItemView>, id: ItemId, k: int)
    requires
        ordered(items),
        0 <= k <= items.len(),
        forall|j: int| 0 <= j < k ==> items[j].id.0 < id.0,
        k < items.len() ==> items[k].id.0 >= id.0,
    ensures
        rank(items, id) == k,
    decreases items.len(),
{
    if items.len() > 0 {
        let front = items.drop_last();
        if k == items.len() {
            lemma_rank_is(front, id, k - 1);
        } else {
            assert(items.last().id.0 >= items[k].id.0);
            lemma_rank_is(front, id, k);
        }
    }
}

/// The rank lies within the sequence, with smaller identifiers before it
/// and no smaller one from it on.
pub proof fn lemma_rank_splits(items: Seq<ItemView>, id: ItemId)
    requires
        ordered(items),
    ensures
        0 <= rank(items, id) <= items.len(),
        forall|j: int| 0 <= j < rank(items, id) ==> items[j].id.0 < id.0,
        forall|j: int| rank(items, id) <= j < items.len() ==> items[j].id.0 >= id.0,
    decreases items.len(),
{
    if items.len() > 0 {
        let front = items.drop_last();
        lemma_rank_splits(front, id);
        assert(forall|j: int| 0 <= j < front.len() ==> front[j] == items[j]);
        if items.last().id.0 < id.0 {
            assert(forall|j: int| 0 <= j < front.len() ==> items[j].id.0 < items.last().id.0);
            lemma_rank_is(front, id, front.len() as int);
        }
    }
}

/// An identifier is held exactly if some position carries it.
pub proof fn lemma_holds_iff_present(items: Seq<ItemView>, id: ItemId)
    requires
        ordered(items),
    ensures
        holds(items, id) <==> exists|j: int| 0 <= j < items.len() && items[j].id == id,
{
    lemma_rank_splits(items, id);
    if exists|j: int| 0 <= j < items.len() && items[j].id == id {
        let j = choose|j: int| 0 <= j < items.len() && items[j].id == id;
        lemma_rank_is(items, id, j);
    }
}

/// In an ordered sequence every item is found under its identifier.
pub proof fn lemma_lookup_finds(items: Seq<ItemView>, position: int)
    requires
        ordered(items),
        0 <= position < items.len(),
    ensures
        rank(items, items[position].id) == position,
        holds(items, items[position].id),
        lookup(items, items[position].id) == Some(items[position]),
{
    lemma_rank_is(items, items[position].id, position);
}

/// Putting an item in is an insertion into the map: the item stands under
/// its identifier, and every other identifier keeps what it had.
pub proof fn lemma_with_item_is_insert(items: Seq<ItemView>, item: ItemView)
    requires
        ordered(items),
    ensures
        as_map(with_item(items, item)) == as_map(items).insert(item.id, item),
{
    let after = with_item(items, item);
    let k = rank(items, item.id);
    lemma_rank_splits(items, item.id);
    lemma_changes_keep_order(items, item);
    assert forall|id: ItemId|
        holds(after, id) == (id == item.id || holds(items, id)) && (holds(after, id) ==> lookup(
            after,
            id,
        ) == if id == item.id {
            Some(item)
        } else {
            lookup(items, id)
        }) by {
        lemma_holds_iff_present(items, id);
        lemma_holds_iff_present(after, id);
        lemma_rank_splits(after, id);
        if id != item.id {
            if holds(items, id) {
                let j = rank(items, id);
                let moved = if holds(items, item.id) || j < k {
                    j
                } else {
                    j + 1
                };
                assert(after[moved] == items[j]);
                lemma_lookup_finds(after, moved);
            } else if holds(after, id) {
                let j = rank(after, id);
                let back = if holds(items, item.id) || j < k {
                    j
                } else {
                    j - 1
                };
                assert(items[back] == after[j]);
            }
        }
    }
    assert(as_map(after) =~= as_map(items).insert(item.id, item));
}

/// Taking an item out is a removal from the map: its identifier is gone,
/// and every other identifier keeps what it had.
pub proof fn lemma_without_item_is_remove(items: Seq<ItemView>, id: ItemId)
    requires
        ordered(items),
    ensures
        as_map(without_item(items, id)) == as_map(items).remove(id),
{
    let after = without_item(items, id);
    let k = rank(items, id);
    lemma_rank_splits(items, id);
    lemma_changes_keep_order(items, ItemView { id, ..arbitrary::<ItemView>() });
    assert forall|other: ItemId|
        holds(after, other) == (other != id && holds(items, other)) && (holds(after, other)
            ==> lookup(after, other) == lookup(items, other)) by {
        lemma_holds_iff_present(items, other);
        lemma_holds_iff_present(after, other);
        lemma_rank_splits(after, other);
        if other != id && holds(items, id) {
            if holds(items, other) {
                let j = rank(items, other);
                let moved = if j < k {
                    j
                } else {
                    j - 1
                };
                assert(after[moved] == items[j]);
                lemma_lookup_finds(after, moved);
            } else if holds(after, other) {
                let j = rank(after, other);
                let back = if j < k {
                    j
                } else {
                    j + 1
                };
                assert(items[back] == after[j]);
            }
        }
    }
    assert(as_map(after) =~= as_map(items).remove(id));
}

/// Putting an item in and taking one out both keep the order.
pub proof fn lemma_changes_keep_order(items: Seq<ItemView>, item: ItemView)
    requires
        ordered(items),
    ensures
        ordered(with_item(items, item)),
        ordered(without_item(items, item.id)),
        holds(with_item(items, item), item.id),
        rank(with_item(items, item), item.id) == rank(items, item.id),
        lookup(with_item(items, item), item.id) == Some(item),
        !holds(without_item(items, item.id), item.id),
{
    lemma_rank_splits(items, item.id);
    let k = rank(items, item.id);
    lemma_rank_is(with_item(items, item), item.id, k);
    let without = without_item(items, item.id);
    lemma_rank_splits(without, item.id);
    if holds(items, item.id) {
        lemma_rank_is(without, item.id, k);
    }
}

/// Saved items have nothing to write.
pub proof fn lemma_saved_items_write_nothing(items: Seq<ItemView>)
    ensures
        item_writes(saved_items(items)) == Seq::<WriteView>::empty(),
    decreases items.len(),
{
    if items.len() > 0 {
        assert(saved_items(items).drop_last() == saved_items(items.drop_last()));
        lemma_saved_items_write_nothing(items.drop_last());
    }
}

/// When the first `count` writes have reached the store, the writes that
/// are left are the rest, in their order: what was written is clean, and
/// what was not is as dirty as before.
pub proof fn lemma_written_items_leave_the_rest(items: Seq<ItemView>, count: int)
    requires
        0 <= count,
    ensures
        written_items(items, count).len() == items.len(),
        count <= item_writes(items).len() ==> item_writes(written_items(items, count))
            == item_writes(items).skip(count),
        count >= item_writes(items).len() ==> written_items(items, count) == saved_items(items),
        count == 0 ==> written_items(items, count) == items,
    decreases items.len(),
{
    let after = written_items(items, count);
    if items.len() > 0 {
        let front = items.drop_last();
        lemma_written_items_leave_the_rest(front, count);
        lemma_saved_items_write_nothing(front);
        assert(items.take(items.len() - 1) == front);
        assert forall|i: int| 0 <= i < front.len() implies items.take(i) == front.take(i) by {}
        assert(after.drop_last() == written_items(front, count));
        assert(saved_items(items).drop_last() == saved_items(front));
        lemma_writes_grow(items, items.len() - 1);
        if count >= item_writes(items).len() {
            assert forall|i: int| 0 <= i < items.len() implies after[i] == saved_items(items)[i] by {
                if items[i].dirty {
                    lemma_writes_grow(items, i + 1);
                    assert(items.take(i + 1).drop_last() == items.take(i));
                } else {
                    assert(items[i].saved() == items[i]);
                }
            }
            assert(after == saved_items(items));
        }
        if count <= item_writes(items).len() {
            if count <= item_writes(front).len() {
                assert(item_writes(after) == item_writes(items).skip(count));
            } else {
                lemma_saved_items_write_nothing(items);
                assert(item_writes(after) == item_writes(items).skip(count));
            }
        }
        if count == 0 {
            assert(after == items);
        }
    } else {
        assert(after == items);
        assert(after == saved_items(items));
        assert(item_writes(items).skip(0) == item_writes(items));
    }
}

/// The writes of the first items are among the writes of all: their number
/// does not go down as more items are taken.
pub proof fn lemma_writes_grow(items: Seq<ItemView>, count: int)
    requires
        0 <= count <= items.len(),
    ensures
        item_writes(items.take(count)).len() <= item_writes(items).len(),
        item_writes(items).len() <= items.len(),
    decreases items.len(),
{
    if items.len() > 0 {
        let front = items.drop_last();
        if count < items.len() {
            assert(items.take(count) == front.take(count));
            lemma_writes_grow(front, count);
        } else {
            assert(items.take(count) == items);
            lemma_writes_grow(front, front.len() as int);
        }
    } else {
        assert(items.take(count) == items);
    }
}

/// The items of one list: at most one for each identifier, in the order of
/// their identifiers.
#[derive(Debug, PartialEq, Eq, Hash)]
pub struct Items {
    entries: Vec<Item>,
}

impl View for Items {
    type V = Seq<ItemView>;

    closed spec fn view(&self) -> Seq<ItemView> {
        self.entries@.map_values(|item: Item| item@)
    }
}

impl Clone for Items {
    fn clone(&self) -> (copy: Items)
        ensures
            copy@ == self@,
    {
        proof {
            use_type_invariant(self);
        }
        let mut entries: Vec<Item> = Vec::new();
        let mut index: usize = 0;
        while index < self.entries.len()
            invariant
                index <= self.entries.len(),
                entries@.len() == index,
                forall|j: int| 0 <= j < index ==> entries@[j]@ == self.entries@[j]@,
            decreases self.entries.len() - index,
        {
            entries.push(self.entries[index].clone());
            index += 1;
        }
        assert(entries@.map_values(|item: Item| item@) == self@);
        Items { entries }
    }
}

impl Items {
    #[verifier::type_invariant]
    spec fn key_order(self) -> bool {
        ordered(self@)
    }

    /// Tells the caller what holds of every `Items`: the identifiers
    /// increase strictly from front to back. Does nothing when run.
    pub fn in_key_order(&self)
        ensures
            ordered(self@),
    {
        proof {
            use_type_invariant(self);
        }
    }

    /// No items.
    pub fn new() -> (items: Items)
        ensures
            items@ == Seq::<ItemView>::empty(),
    {
        Items { entries: Vec::new() }
    }

    /// The number of items.
    pub fn len(&self) -> (len: usize)
        ensures
            len == self@.len(),
    {
        self.entries.len()
    }

    pub fn is_empty(&self) -> (empty: bool)
        ensures
            empty == (self@.len() == 0),
    {
        self.entries.len() == 0
    }

    /// Where `id` stands in key order, or would stand.
    fn position(&self, id: ItemId) -> (position: usize)
        ensures
            position == rank(self@, id),
            position <= self@.len(),
    {
        proof {
            use_type_invariant(self);
        }
        let mut low: usize = 0;
        let mut high: usize = self.entries.len();
        while low < high
            invariant
                low <= high <= self.entries.len(),
                self@ == self.entries@.map_values(|item: Item| item@),
                ordered(self@),
                forall|j: int| 0 <= j < low ==> self@[j].id.0 < id.0,
                forall|j: int| high <= j < self@.len() ==> self@[j].id.0 >= id.0,
            decreases high - low,
        {
            let middle = low + (high - low) / 2;
            let found = self.entries[middle].id();
            assert(found == self@[middle as int].id);
            if found.0 < id.0 {
                assert forall|j: int| 0 <= j < middle + 1 implies self@[j].id.0 < id.0 by {
                    if j < middle {
                        assert(self@[j].id.0 < self@[middle as int].id.0);
                    }
                }
                low = middle + 1;
            } else {
                assert forall|j: int| middle <= j < self@.len() implies self@[j].id.0
                    >= id.0 by {
                    if middle < j {
                        assert(self@[middle as int].id.0 < self@[j].id.0);
                    }
                }
                high = middle;
            }
        }
        proof {
            lemma_rank_is(self@, id, low as int);
        }
        low
    }

    /// The item with the identifier `id`.
    pub fn get(&self, id: ItemId) -> (item: Option<&Item>)
        ensures
            item is Some == holds(self@, id),
            item matches Some(it) ==> Some(it@) == lookup(self@, id),
    {
        let position = self.position(id);
        if position < self.entries.len() && self.entries[position].id().0 == id.0 {
            Some(&self.entries[position])
        } else {
            None
        }
    }

    /// The item at `index`, counting in key order from zero.
    pub fn at(&self, index: usize) -> (item: Option<&Item>)
        ensures
            item is Some == (index < self@.len()),
            item matches Some(it) ==> it@ == self@[index as int],
    {
        if index < self.entries.len() {
            Some(&self.entries[index])
        } else {
            None
        }
    }

    /// Puts `item` under its identifier and returns what stood there.
    pub fn insert(&mut self, item: Item) -> (replaced: Option<Item>)
        ensures
            final(self)@ == with_item(old(self)@, item@),
            ordered(old(self)@),
            ordered(final(self)@),
            replaced is Some == holds(old(self)@, item@.id),
            replaced matches Some(it) ==> Some(it@) == lookup(old(self)@, item@.id),
    {
        proof {
            use_type_invariant(&*self);
            lemma_changes_keep_order(self@, item@);
        }
        let id = item.id();
        let position = self.position(id);
        let found = position < self.entries.len() && self.entries[position].id().0 == id.0;
        let mut entries: Vec<Item> = Vec::new();
        core::mem::swap(&mut self.entries, &mut entries);
        let replaced = if found {
            Some(entries.remove(position))
        } else {
            None
        };
        entries.insert(position, item);
        assert(entries@.map_values(|item: Item| item@) == with_item(old(self)@, item@));
        self.entries = entries;
        replaced
    }

    /// Takes out the item with the identifier `id` and returns it.
    pub fn remove(&mut self, id: ItemId) -> (removed: Option<Item>)
        ensures
            final(self)@ == without_item(old(self)@, id),
            ordered(old(self)@),
            ordered(final(self)@),
            removed is Some == holds(old(self)@, id),
            removed matches Some(it) ==> Some(it@) == lookup(old(self)@, id),
    {
        proof {
            use_type_invariant(&*self);
        }
        let position = self.position(id);
        if position < self.entries.len() && self.entries[position].id().0 == id.0 {
            proof {
                lemma_changes_keep_order(self@, self@[position as int]);
            }
            let mut entries: Vec<Item> = Vec::new();
            core::mem::swap(&mut self.entries, &mut entries);
            let removed = entries.remove(position);
            assert(entries@.map_values(|item: Item| item@) == without_item(old(self)@, id));
            self.entries = entries;
            Some(removed)
        } else {
            None
        }
    }

    /// The identifiers, in key order.
    pub fn ids(&self) -> (ids: Vec<ItemId>)
        ensures
            ids@ == self@.map_values(|item: ItemView| item.id),
    {
        let mut ids: Vec<ItemId> = Vec::new();
        let mut index: usize = 0;
        while index < self.entries.len()
            invariant
                index <= self.entries.len(),
                ids@.len() == index,
                forall|j: int| 0 <= j < index ==> ids@[j] == self.entries@[j]@.id,
            decreases self.entries.len() - index,
        {
            ids.push(self.entries[index].id());
            index += 1;
        }
        assert(ids@ == self@.map_values(|item: ItemView| item.id));
        ids
    }

    /// Sets the description of the item `id`. Returns whether that item is
    /// dirty afterwards, or `None` if there is no such item.
    pub fn set_description(&mut self, id: ItemId, description: String) -> (dirty: Option<bool>)
        ensures
            final(self)@ == described(old(self)@, id, description@),
            dirty == match lookup(old(self)@, id) {
                Some(item) => Some(item.with_description(description@).dirty),
                None => None,
            },
    {
        proof {
            use_type_invariant(&*self);
        }
        let position = self.position(id);
        if position < self.entries.len() && self.entries[position].id().0 == id.0 {
            let mut entries: Vec<Item> = Vec::new();
            core::mem::swap(&mut self.entries, &mut entries);
            let mut item = entries.remove(position);
            item.set_description(description);
            let dirty = item.dirty();
            entries.insert(position, item);
            assert(entries@.map_values(|item: Item| item@) == described(
                old(self)@,
                id,
                description@,
            ));
            self.entries = entries;
            Some(dirty)
        } else {
            None
        }
    }

    /// Sets the completion flag of the item `id`. Returns whether that item
    /// is dirty afterwards, or `None` if there is no such item.
    pub fn set_is_completed(&mut self, id: ItemId, is_completed: bool) -> (dirty: Option<bool>)
        ensures
            final(self)@ == completed(old(self)@, id, is_completed),
            dirty == match lookup(old(self)@, id) {
                Some(item) => Some(item.with_is_completed(is_completed).dirty),
                None => None,
            },
    {
        proof {
            use_type_invariant(&*self);
        }
        let position = self.position(id);
        if position < self.entries.len() && self.entries[position].id().0 == id.0 {
            let mut entries: Vec<Item> = Vec::new();
            core::mem::swap(&mut self.entries, &mut entries);
            let mut item = entries.remove(position);
            item.set_is_completed(is_completed);
            let dirty = item.dirty();
            entries.insert(position, item);
            assert(entries@.map_values(|item: Item| item@) == completed(
                old(self)@,
                id,
                is_completed,
            ));
            self.entries = entries;
            Some(dirty)
        } else {
            None
        }
    }

    /// The writes that bring the store up to date with these items: one
    /// for each dirty item, in key order.
    pub fn save(&self) -> (writes: Vec<Write>)
        ensures
            writes@.map_values(|write: Write| write@) == item_writes(self@),
    {
        let mut writes: Vec<Write> = Vec::new();
        let mut index: usize = 0;
        while index < self.entries.len()
            invariant
                index <= self.entries.len(),
                self@ == self.entries@.map_values(|item: Item| item@),
                writes@.map_values(|write: Write| write@) == item_writes(self@.take(index as int)),
            decreases self.entries.len() - index,
        {
            let ghost before = writes@.map_values(|write: Write| write@);
            assert(self@.take(index + 1).drop_last() == self@.take(index as int));
            match self.entries[index].save() {
                Some(write) => {
                    writes.push(write);
                    assert(writes@.map_values(|write: Write| write@) == before.push(write@));
                },
                None => {},
            }
            index += 1;
        }
        assert(self@.take(index as int) == self@);
        writes
    }

    /// Records that the store holds every item as it is now.
    pub fn mark_saved(&mut self)
        ensures
            final(self)@ == saved_items(old(self)@),
    {
        proof {
            use_type_invariant(&*self);
        }
        let mut entries: Vec<Item> = Vec::new();
        let mut index: usize = 0;
        while index < self.entries.len()
            invariant
                index <= self.entries.len(),
                entries@.len() == index,
                forall|j: int| 0 <= j < index ==> entries@[j]@ == self.entries@[j]@.saved(),
            decreases self.entries.len() - index,
        {
            let mut item = self.entries[index].clone();
            item.mark_saved();
            entries.push(item);
            index += 1;
        }
        assert(entries@.map_values(|item: Item| item@) == saved_items(self@));
        self.entries = entries;
    }

    /// Records that the first `count` writes of `save` have reached the
    /// store, and returns how many writes that were: `count`, or the number
    /// of all writes where that is smaller.
    pub fn mark_written(&mut self, count: usize) -> (marked: usize)
        ensures
            final(self)@ == written_items(old(self)@, count as int),
            marked == if count <= item_writes(old(self)@).len() {
                count as int
            } else {
                item_writes(old(self)@).len() as int
            },
    {
        proof {
            use_type_invariant(&*self);
        }
        let ghost before = self@;
        let mut entries: Vec<Item> = Vec::new();
        let mut marked: usize = 0;
        let mut index: usize = 0;
        while index < self.entries.len()
            invariant
                index <= self.entries.len(),
                before == self.entries@.map_values(|item: Item| item@),
                entries@.len() == index,
                marked <= index,
                marked == if count <= item_writes(before.take(index as int)).len() {
                    count as int
                } else {
                    item_writes(before.take(index as int)).len() as int
                },
                forall|j: int|
                    0 <= j < index ==> entries@[j]@ == written_items(before, count as int)[j],
            decreases self.entries.len() - index,
        {
            assert(before.take(index + 1).drop_last() == before.take(index as int));
            let mut item = self.entries[index].clone();
            if item.dirty() {
                if marked < count {
                    item.mark_saved();
                    marked += 1;
                }
            } else {
                assert(item@.saved() == item@);
            }
            entries.push(item);
            index += 1;
        }
        assert(before.take(index as int) == before);
        assert(entries@.map_values(|item: Item| item@) == written_items(before, count as int));
        proof {
            lemma_written_items_keep_order(before, count as int);
        }
        self.entries = entries;
        marked
    }

    /// The items that `records`, read for the list `list_id`, hold.
    ///
    /// Fails where a record has no creation time or an identifier occurs
    /// twice; of several such records the first in `records` decides.
    pub fn collect(list_id: TodoListId, records: &Vec<ItemRecord>) -> (items: Result<
        Items,
        Error,
    >)
        ensures
            items matches Ok(its) ==> Ok::<Seq<ItemView>, Error>(its@) == gathered(
                list_id,
                records@.map_values(|record: ItemRecord| record@),
            ),
            items matches Err(e) ==> Err::<Seq<ItemView>, Error>(e) == gathered(
                list_id,
                records@.map_values(|record: ItemRecord| record@),
            ),
    {
        let ghost all = records@.map_values(|record: ItemRecord| record@);
        let mut items = Items::new();
        let mut index: usize = 0;
        while index < records.len()
            invariant
                index <= records.len(),
                all == records@.map_values(|record: ItemRecord| record@),
                gathered(list_id, all.take(index as int)) == Ok::<Seq<ItemView>, Error>(items@),
            decreases records.len() - index,
        {
            proof {
                assert(all.take(index + 1).drop_last() == all.take(index as int));
                assert(all.take(index + 1).last() == records@[index as int]@);
            }
            let record = &records[index];
            let item = match Item::load_at(
                ItemId(record.id),
                list_id,
                record.description.clone(),
                record.is_completed,
                record.created_at,
            ) {
                Ok(item) => item,
                Err(error) => {
                    proof {
                        lemma_gathered_fails_on(list_id, all, index + 1);
                    }
                    return Err(error);
                },
            };
            let id = item.id();
            if items.get(id).is_some() {
                proof {
                    lemma_gathered_fails_on(list_id, all, index + 1);
                }
                return Err(Error::DuplicateItem { id });
            }
            items.insert(item);
            index += 1;
        }
        assert(all.take(index as int) == all);
        Ok(items)
    }

    /// The items that `rows`, read for the list `list_id`, hold.
    ///
    /// Fails where a creation time cannot be read or an identifier occurs
    /// twice; of several such rows the first in `rows` decides.
    pub fn load_for_list(list_id: TodoListId, rows: &Vec<ItemRow>) -> (items: Result<Items, Error>)
        ensures
            items matches Ok(its) ==> Ok::<Seq<ItemView>, Error>(its@) == collected(
                list_id,
                rows@.map_values(|row: ItemRow| row@),
            ),
            items matches Err(e) ==> Err::<Seq<ItemView>, Error>(e) == collected(
                list_id,
                rows@.map_values(|row: ItemRow| row@),
            ),
    {
        let records = parse_rows(rows);
        Items::collect(list_id, &records)
    }
}

/// The rows with the creation time of each read.
pub fn parse_rows(rows: &Vec<ItemRow>) -> (records: Vec<ItemRecord>)
    ensures
        records@.map_values(|record: ItemRecord| record@) == rows@.map_values(
            |row: ItemRow| row@,
        ).map_values(|row: ItemRowView| row.parsed()),
{
    let mut records: Vec<ItemRecord> = Vec::new();
    let mut index: usize = 0;
    while index < rows.len()
        invariant
            index <= rows.len(),
            records@.len() == index,
            forall|j: int| 0 <= j < index ==> records@[j]@ == rows@[j]@.parsed(),
        decreases rows.len() - index,
    {
        records.push(rows[index].parse());
        index += 1;
    }
    assert(records@.map_values(|record: ItemRecord| record@) == rows@.map_values(
        |row: ItemRow| row@,
    ).map_values(|row: ItemRowView| row.parsed()));
    records
}

/// Marking writes as made changes no identifier and no owner.
pub proof fn lemma_written_items_keep_order(items: Seq<ItemView>, count: int)
    ensures
        ordered(items) ==> ordered(written_items(items, count)),
        forall|list_id: TodoListId|
            owned_by(items, list_id) ==> owned_by(written_items(items, count), list_id),
{
    assert forall|list_id: TodoListId| owned_by(items, list_id) implies owned_by(
        written_items(items, count),
        list_id,
    ) by {
        assert forall|i: int| 0 <= i < items.len() implies (#[trigger] written_items(
            items,
            count,
        )[i]).list_id == list_id by {
            assert(items[i].list_id == list_id);
        }
    }
}

/// A failure among the first records is the failure of the whole.
pub proof fn lemma_gathered_fails_on(
    list_id: TodoListId,
    records: Seq<ItemRecordView>,
    count: int,
)
    requires
        0 <= count <= records.len(),
        gathered(list_id, records.take(count)) is Err,
    ensures
        gathered(list_id, records) == gathered(list_id, records.take(count)),
    decreases records.len(),
{
    if count < records.len() {
        assert(records.drop_last().take(count) == records.take(count));
        lemma_gathered_fails_on(list_id, records.drop_last(), count);
    } else {
        assert(records.take(count) == records);
    }
}

/// What `gathered` returns is in key order and belongs to the list.
pub proof fn lemma_gathered_is_ordered(list_id: TodoListId, records: Seq<ItemRecordView>)
    ensures
        gathered(list_id, records) matches Ok(items) ==> ordered(items) && owned_by(
            items,
            list_id,
        ),
    decreases records.len(),
{
    if records.len() > 0 {
        lemma_gathered_is_ordered(list_id, records.drop_last());
        if let Ok(items) = gathered(list_id, records.drop_last()) {
            if let Ok(item) = ItemView::from_record(list_id, records.last()) {
                lemma_changes_keep_order(items, item);
                lemma_rank_splits(items, item.id);
            }
        }
    }
}

/// What `collected` returns is in key order and belongs to the list.
pub proof fn lemma_collected_is_ordered(list_id: TodoListId, rows: Seq<ItemRowView>)
    ensures
        collected(list_id, rows) matches Ok(items) ==> ordered(items) && owned_by(items, list_id),
{
    lemma_gathered_is_ordered(list_id, rows.map_values(|row: ItemRowView| row.parsed()));
}

} // verus!
