//! The state machine of the terminal interface.
//!
//! One message is processed to its end before the next is read. Processing
//! may need the store: the machine then hands out a request together with a
//! note of what it is in the middle of, and goes on when both come back
//! with the reply. It may also end in a message of its own, which is to be
//! processed before any new input.

use crate::fault::{Activity, Fault, FaultView};
use crate::ids::{ItemId, TodoListId};
use crate::item::{Item, ItemView};
use crate::message::Message;
use crate::selection::Selection;
use crate::state::{State, StateView, TextInputMode};
use crate::store::{Reply, ReplyView, Request, RequestView};
use crate::text::{trimmed, TextBuffer, TextBufferView};
use crate::todo_list::{listed, TodoList, TodoListView};
use vstd::prelude::*;
use vstd::string::StrSliceExecFns;

verus! {

/// What the machine is in the middle of while the store works.
#[derive(Debug, PartialEq, Eq)]
pub enum Pending {
    /// Fetching all lists, to show them for selection.
    LoadTodos,
    /// Loading the list `list_id`, to show it.
    SelectTodoList { list_id: TodoListId },
    /// Deleting the selected list.
    DeleteList,
    /// Deleting the item `item_id` of the list that is shown.
    DeleteItem { item_id: ItemId },
    /// Saving the list that is shown, after a completion flag was flipped.
    ToggleItem,
    /// Inserting a list with this title, to show all lists afterwards.
    CreateList { title: String },
    /// Loading the list `list_id`, to add an item with this description.
    NewItemLoad { list_id: TodoListId, description: String },
    /// Inserting an item with this description for `todo_list`.
    NewItemAdd { todo_list: TodoList, description: String },
    /// Loading the list `list_id`, to give its item `item_id` this
    /// description.
    EditItemLoad { list_id: TodoListId, item_id: ItemId, description: String },
    /// Saving `todo_list`, in which an item was edited.
    EditItemSave { todo_list: TodoList },
}

/// The mathematical content of a [`Pending`].
pub enum PendingView {
    LoadTodos,
    SelectTodoList { list_id: TodoListId },
    DeleteList,
    DeleteItem { item_id: ItemId },
    ToggleItem,
    CreateList { title: Seq<char> },
    NewItemLoad { list_id: TodoListId, description: Seq<char> },
    NewItemAdd { todo_list: TodoListView, description: Seq<char> },
    EditItemLoad { list_id: TodoListId, item_id: ItemId, description: Seq<char> },
    EditItemSave { todo_list: TodoListView },
}

impl View for Pending {
    type V = PendingView;

    open spec fn view(&self) -> PendingView {
        match *self {
            Pending::LoadTodos => PendingView::LoadTodos,
            Pending::SelectTodoList { list_id } => PendingView::SelectTodoList { list_id },
            Pending::DeleteList => PendingView::DeleteList,
            Pending::DeleteItem { item_id } => PendingView::DeleteItem { item_id },
            Pending::ToggleItem => PendingView::ToggleItem,
            Pending::CreateList { title } => PendingView::CreateList { title: title@ },
            Pending::NewItemLoad { list_id, description } => PendingView::NewItemLoad {
                list_id,
                description: description@,
            },
            Pending::NewItemAdd { todo_list, description } => PendingView::NewItemAdd {
                todo_list: todo_list@,
                description: description@,
            },
            Pending::EditItemLoad { list_id, item_id, description } => PendingView::EditItemLoad {
                list_id,
                item_id,
                description: description@,
            },
            Pending::EditItemSave { todo_list } => PendingView::EditItemSave {
                todo_list: todo_list@,
            },
        }
    }
}

impl PendingView {
    /// What holds of every note that the machine hands out: a list that it
    /// carries is well formed.
    pub open spec fn wf(self) -> bool {
        match self {
            PendingView::NewItemAdd { todo_list, .. } => todo_list.wf(),
            PendingView::EditItemSave { todo_list } => todo_list.wf(),
            _ => true,
        }
    }

    /// What the machine is doing with the store.
    pub open spec fn activity(self) -> Activity {
        match self {
            PendingView::LoadTodos => Activity::ListingLists,
            PendingView::SelectTodoList { .. } => Activity::LoadingList,
            PendingView::DeleteList => Activity::DeletingList,
            PendingView::DeleteItem { .. } => Activity::DeletingItem,
            PendingView::ToggleItem => Activity::SavingToggle,
            PendingView::CreateList { .. } => Activity::CreatingList,
            PendingView::NewItemLoad { .. } => Activity::LoadingForNewItem,
            PendingView::NewItemAdd { .. } => Activity::AddingItem,
            PendingView::EditItemLoad { .. } => Activity::LoadingForEdit,
            PendingView::EditItemSave { .. } => Activity::SavingEdit,
        }
    }
}

impl Pending {
    /// What the machine is doing with the store.
    pub fn activity(&self) -> (activity: Activity)
        ensures
            activity == self@.activity(),
    {
        match self {
            Pending::LoadTodos => Activity::ListingLists,
            Pending::SelectTodoList { .. } => Activity::LoadingList,
            Pending::DeleteList => Activity::DeletingList,
            Pending::DeleteItem { .. } => Activity::DeletingItem,
            Pending::ToggleItem => Activity::SavingToggle,
            Pending::CreateList { .. } => Activity::CreatingList,
            Pending::NewItemLoad { .. } => Activity::LoadingForNewItem,
            Pending::NewItemAdd { .. } => Activity::AddingItem,
            Pending::EditItemLoad { .. } => Activity::LoadingForEdit,
            Pending::EditItemSave { .. } => Activity::SavingEdit,
        }
    }
}

/// What the driver is to do once the machine has taken a step.
#[derive(Debug, PartialEq, Eq)]
pub enum Step {
    /// Nothing: draw, and wait for input.
    Idle,
    /// Process this message before any new input.
    Follow(Message),
    /// Carry out `request` against the store, and resume with `pending` and
    /// the reply.
    Ask { request: Request, pending: Pending },
}

/// The mathematical content of a [`Step`].
pub enum StepView {
    Idle,
    Follow(Message),
    Ask { request: RequestView, pending: PendingView },
}

impl View for Step {
    type V = StepView;

    open spec fn view(&self) -> StepView {
        match *self {
            Step::Idle => StepView::Idle,
            Step::Follow(message) => StepView::Follow(message),
            Step::Ask { request, pending } => StepView::Ask {
                request: request@,
                pending: pending@,
            },
        }
    }
}

/// The list that is selected among `ids`, if one is.
pub open spec fn selected_list(ids: Seq<TodoListId>, selection: Selection) -> Option<TodoListId> {
    match selection.selected {
        Some(index) if index < ids.len() => Some(ids[index as int]),
        _ => None,
    }
}

/// The item that is selected among `items`, if one is.
pub open spec fn selected_item(items: Seq<ItemView>, selection: Selection) -> Option<ItemView> {
    match selection.selected {
        Some(index) if index < items.len() => Some(items[index as int]),
        _ => None,
    }
}

/// The state in which a message that `state` does not expect ends.
pub open spec fn unexpected(state: StateView, message: Message) -> StateView {
    StateView::Error(FaultView::Unexpected { message, state: state.kind() })
}

/// The state after the selection moved one entry, up or down.
pub open spec fn moved(state: StateView, up: bool) -> StateView {
    match state {
        StateView::ListSelect { ids, labels, selection } => StateView::ListSelect {
            ids,
            labels,
            selection: if up {
                selection.previous(ids.len() as int)
            } else {
                selection.next(ids.len() as int)
            },
        },
        StateView::ListView { todo_list, selection } => StateView::ListView {
            todo_list,
            selection: if up {
                selection.previous(todo_list.items.len() as int)
            } else {
                selection.next(todo_list.items.len() as int)
            },
        },
        _ => state,
    }
}

/// The step that accepts the text of a text entry. Blank text is a
/// cancellation; other text, trimmed, goes to the store as the mode says.
pub open spec fn committed(mode: TextInputMode, text: Seq<char>) -> StepView {
    let text = trimmed(text);
    if text.len() == 0 {
        StepView::Follow(Message::CancelTextInput)
    } else {
        match mode {
            TextInputMode::NewList => StepView::Ask {
                request: RequestView::CreateList { title: text },
                pending: PendingView::CreateList { title: text },
            },
            TextInputMode::NewItem { list_id } => StepView::Ask {
                request: RequestView::LoadList { list_id },
                pending: PendingView::NewItemLoad { list_id, description: text },
            },
            TextInputMode::EditItem { list_id, item_id } => StepView::Ask {
                request: RequestView::LoadList { list_id },
                pending: PendingView::EditItemLoad { list_id, item_id, description: text },
            },
        }
    }
}

/// The message that leads back from a text entry to where it was opened.
pub open spec fn way_back(mode: TextInputMode) -> Message {
    match mode {
        TextInputMode::NewList => Message::LoadTodos,
        TextInputMode::NewItem { list_id } => Message::SelectTodoList(list_id),
        TextInputMode::EditItem { list_id, .. } => Message::SelectTodoList(list_id),
    }
}

/// The text after one editing message.
pub open spec fn edited(buffer: TextBufferView, message: Message) -> TextBufferView {
    match message {
        Message::InsertChar(c) => buffer.inserted(c),
        Message::Backspace => buffer.backspaced(),
        Message::Delete => buffer.deleted(),
        Message::CursorLeft => buffer.moved_left(),
        Message::CursorRight => buffer.moved_right(),
        _ => buffer,
    }
}

/// The state and the step that follow when `message` is processed in
/// `state`.
pub open spec fn transition(state: StateView, message: Message) -> (StateView, StepView) {
    if !message.expected_in(state.kind()) {
        (unexpected(state, message), StepView::Idle)
    } else {
        match message {
            Message::Quit => (StateView::Exit, StepView::Idle),
            Message::LoadTodos => (
                state,
                StepView::Ask { request: RequestView::ListAll, pending: PendingView::LoadTodos },
            ),
            Message::SelectTodoList(list_id) => (
                state,
                StepView::Ask {
                    request: RequestView::LoadList { list_id },
                    pending: PendingView::SelectTodoList { list_id },
                },
            ),
            Message::NewTodoList => (
                StateView::TextInput {
                    mode: TextInputMode::NewList,
                    buffer: TextBufferView::empty(),
                },
                StepView::Idle,
            ),
            Message::DecrementItem => (moved(state, true), StepView::Idle),
            Message::IncrementItem => (moved(state, false), StepView::Idle),
            Message::DeleteList => match state {
                StateView::ListSelect { ids, selection, .. } => match selected_list(
                    ids,
                    selection,
                ) {
                    Some(list_id) => (
                        state,
                        StepView::Ask {
                            request: RequestView::DeleteList { list_id },
                            pending: PendingView::DeleteList,
                        },
                    ),
                    None => (state, StepView::Idle),
                },
                _ => (state, StepView::Idle),
            },
            Message::NewItem => match state {
                StateView::ListView { todo_list, .. } => (
                    StateView::TextInput {
                        mode: TextInputMode::NewItem { list_id: todo_list.id },
                        buffer: TextBufferView::empty(),
                    },
                    StepView::Idle,
                ),
                _ => (state, StepView::Idle),
            },
            Message::EditItem => match state {
                StateView::ListView { todo_list, selection } => match selected_item(
                    todo_list.items,
                    selection,
                ) {
                    Some(item) => (
                        StateView::TextInput {
                            mode: TextInputMode::EditItem {
                                list_id: todo_list.id,
                                item_id: item.id,
                            },
                            buffer: TextBufferView::holding(item.description),
                        },
                        StepView::Idle,
                    ),
                    None => (state, StepView::Idle),
                },
                _ => (state, StepView::Idle),
            },
            Message::DeleteItem => match state {
                StateView::ListView { todo_list, selection } => match selected_item(
                    todo_list.items,
                    selection,
                ) {
                    Some(item) => (
                        state,
                        StepView::Ask {
                            request: RequestView::DeleteItem { item_id: item.id },
                            pending: PendingView::DeleteItem { item_id: item.id },
                        },
                    ),
                    None => (state, StepView::Idle),
                },
                _ => (state, StepView::Idle),
            },
            Message::ToggleItemComplete => match state {
                StateView::ListView { todo_list, selection } => match selected_item(
                    todo_list.items,
                    selection,
                ) {
                    Some(item) => {
                        let toggled = todo_list.with_item_completed(item.id, !item.is_completed);
                        (
                            StateView::ListView { todo_list: toggled, selection },
                            StepView::Ask {
                                request: RequestView::Save { writes: toggled.writes() },
                                pending: PendingView::ToggleItem,
                            },
                        )
                    },
                    None => (state, StepView::Idle),
                },
                _ => (state, StepView::Idle),
            },
            Message::CommitTextInput => match state {
                StateView::TextInput { mode, buffer } => (state, committed(mode, buffer.text)),
                _ => (state, StepView::Idle),
            },
            Message::CancelTextInput => match state {
                StateView::TextInput { mode, .. } => (state, StepView::Follow(way_back(mode))),
                _ => (state, StepView::Idle),
            },
            Message::InsertChar(_)
            | Message::Backspace
            | Message::Delete
            | Message::CursorLeft
            | Message::CursorRight => match state {
                StateView::TextInput { mode, buffer } => (
                    StateView::TextInput { mode, buffer: edited(buffer, message) },
                    StepView::Idle,
                ),
                _ => (state, StepView::Idle),
            },
        }
    }
}

/// The state in which a reply that does not answer `pending` ends.
pub open spec fn out_of_turn(pending: PendingView, reply: ReplyView) -> (StateView, StepView) {
    (
        StateView::Error(
            FaultView::Protocol { activity: pending.activity(), reply: reply.kind() },
        ),
        StepView::Idle,
    )
}

/// The state that shows `todo_list` from its top.
pub open spec fn showing(todo_list: TodoListView) -> StateView {
    StateView::ListView { todo_list, selection: Selection { selected: None, offset: 0 } }
}

/// The state and the step that follow when the store answers `reply` to
/// what `pending` was waiting for, in `state`.
pub open spec fn resumption(state: StateView, pending: PendingView, reply: ReplyView) -> (
    StateView,
    StepView,
) {
    let activity = pending.activity();
    match reply {
        ReplyView::Failed { detail, written } => (
            StateView::Error(FaultView::Store { activity, detail, written }),
            StepView::Idle,
        ),
        ReplyView::Lists { rows } => match pending {
            PendingView::LoadTodos => (
                StateView::ListSelect {
                    ids: listed(rows).map_values(|list: (TodoListId, Seq<char>)| list.0),
                    labels: listed(rows).map_values(|list: (TodoListId, Seq<char>)| list.1),
                    selection: Selection { selected: None, offset: 0 },
                },
                StepView::Idle,
            ),
            _ => out_of_turn(pending, reply),
        },
        ReplyView::Loaded { row, items } => match pending {
            PendingView::SelectTodoList { list_id } => match TodoListView::loaded(
                list_id,
                row,
                items,
            ) {
                Ok(todo_list) => (showing(todo_list), StepView::Idle),
                Err(error) => (
                    StateView::Error(FaultView::Data { activity, error }),
                    StepView::Idle,
                ),
            },
            PendingView::NewItemLoad { list_id, description } => match TodoListView::loaded(
                list_id,
                row,
                items,
            ) {
                Ok(todo_list) => (
                    state,
                    StepView::Ask {
                        request: RequestView::AddItem { list_id, description },
                        pending: PendingView::NewItemAdd { todo_list, description },
                    },
                ),
                Err(error) => (
                    StateView::Error(FaultView::Data { activity, error }),
                    StepView::Idle,
                ),
            },
            PendingView::EditItemLoad { list_id, item_id, description } => match TodoListView::loaded(
                list_id,
                row,
                items,
            ) {
                Ok(todo_list) => if todo_list.contains(item_id) {
                    let edited = todo_list.with_item_description(item_id, description);
                    (
                        state,
                        StepView::Ask {
                            request: RequestView::Save { writes: edited.writes() },
                            pending: PendingView::EditItemSave { todo_list: edited },
                        },
                    )
                } else {
                    (state, StepView::Idle)
                },
                Err(error) => (
                    StateView::Error(FaultView::Data { activity, error }),
                    StepView::Idle,
                ),
            },
            _ => out_of_turn(pending, reply),
        },
        ReplyView::Inserted { row } => match pending {
            PendingView::CreateList { title } => match TodoListView::created(title, row) {
                Ok(_) => (state, StepView::Follow(Message::LoadTodos)),
                Err(error) => (
                    StateView::Error(FaultView::Data { activity, error }),
                    StepView::Idle,
                ),
            },
            PendingView::NewItemAdd { todo_list, description } => match todo_list.addition(
                description,
                row,
            ) {
                Ok(_) => (showing(todo_list.added(description, row)), StepView::Idle),
                Err(error) => (
                    StateView::Error(FaultView::Data { activity, error }),
                    StepView::Idle,
                ),
            },
            _ => out_of_turn(pending, reply),
        },
        ReplyView::Deleted { affected_rows } => match pending {
            PendingView::DeleteList => (state, StepView::Follow(Message::LoadTodos)),
            PendingView::DeleteItem { item_id } => match state {
                StateView::ListView { todo_list, selection } => match todo_list.removal(
                    item_id,
                    affected_rows > 0,
                ) {
                    Ok(_) => (
                        StateView::ListView {
                            todo_list: todo_list.removed(item_id),
                            selection: selection.clamped(
                                todo_list.removed(item_id).items.len() as int,
                            ),
                        },
                        StepView::Idle,
                    ),
                    Err(error) => (
                        StateView::Error(FaultView::Data { activity, error }),
                        StepView::Idle,
                    ),
                },
                _ => out_of_turn(pending, reply),
            },
            _ => out_of_turn(pending, reply),
        },
        ReplyView::Saved => match pending {
            PendingView::ToggleItem => match state {
                StateView::ListView { todo_list, selection } => (
                    StateView::ListView { todo_list: todo_list.saved(), selection },
                    StepView::Idle,
                ),
                _ => out_of_turn(pending, reply),
            },
            PendingView::EditItemSave { todo_list } => (
                showing(todo_list.saved()),
                StepView::Idle,
            ),
            _ => out_of_turn(pending, reply),
        },
    }
}

/// A message that the state does not expect ends the session: the next
/// state is the error state, it carries the message and the kind of the
/// state, its description names both, and nothing is asked of the store.
pub proof fn lemma_unexpected_message_ends_session(state: StateView, message: Message)
    requires
        !message.expected_in(state.kind()),
    ensures
        transition(state, message).1 == StepView::Idle,
        transition(state, message).0 == StateView::Error(
            FaultView::Unexpected { message, state: state.kind() },
        ),
        transition(state, message).0.is_terminal(),
        (FaultView::Unexpected { message, state: state.kind() }).description()
            == "unexpected Message::"@ + message.spec_name() + " in state "@
            + state.kind().spec_name(),
{
}

/// `Quit` ends the session in every state, without an error.
pub proof fn lemma_quit_exits(state: StateView)
    ensures
        transition(state, Message::Quit) == (StateView::Exit, StepView::Idle),
{
}

/// Whether `state` shows a collection that is empty or has its first entry
/// selected.
pub open spec fn at_top(state: StateView) -> bool {
    match state {
        StateView::ListSelect { ids, selection, .. } => selection.selected == Some(0usize)
            || ids.len() == 0,
        StateView::ListView { todo_list, selection } => selection.selected == Some(0usize)
            || todo_list.items.len() == 0,
        _ => false,
    }
}

/// Moving the selection up from the first entry, or in an empty collection,
/// changes nothing but that in an empty collection nothing is selected
/// afterwards. Nothing is asked of the store, and no error arises.
pub proof fn lemma_decrement_at_top(state: StateView)
    requires
        at_top(state),
    ensures
        transition(state, Message::DecrementItem).1 == StepView::Idle,
        match (state, transition(state, Message::DecrementItem).0) {
            (
                StateView::ListSelect { ids, labels, selection },
                StateView::ListSelect { ids: ids2, labels: labels2, selection: selection2 },
            ) => ids2 == ids && labels2 == labels && if ids.len() == 0 {
                selection2.selected is None
            } else {
                selection2 == selection
            },
            (
                StateView::ListView { todo_list, selection },
                StateView::ListView { todo_list: todo_list2, selection: selection2 },
            ) => todo_list2 == todo_list && if todo_list.items.len() == 0 {
                selection2.selected is None
            } else {
                selection2 == selection
            },
            _ => false,
        },
{
}

/// Whatever the selection was, after it moved it lies within the
/// collection.
pub proof fn lemma_selection_stays_within(state: StateView, up: bool)
    ensures
        match moved(state, up) {
            StateView::ListSelect { ids, selection, .. } => selection.within(ids.len() as int),
            StateView::ListView { todo_list, selection } => selection.within(
                todo_list.items.len() as int,
            ),
            _ => true,
        },
{
}

/// Accepting a text that is blank is a cancellation: the state stays, the
/// store is not asked for anything, and the machine goes back to where the
/// text entry was opened.
pub proof fn lemma_blank_text_is_cancelled(mode: TextInputMode, buffer: TextBufferView)
    requires
        crate::text::blank(buffer.text),
    ensures
        ({
            let state = StateView::TextInput { mode, buffer };
            &&& transition(state, Message::CommitTextInput) == (
                state,
                StepView::Follow(Message::CancelTextInput),
            )
            &&& transition(state, Message::CancelTextInput) == (
                state,
                StepView::Follow(way_back(mode)),
            )
            &&& mode matches TextInputMode::NewItem { list_id } ==> transition(
                state,
                way_back(mode),
            ) == (
                state,
                StepView::Ask {
                    request: RequestView::LoadList { list_id },
                    pending: PendingView::SelectTodoList { list_id },
                },
            )
        }),
{
    crate::text::lemma_trimmed_empty_iff_blank(buffer.text);
}

/// Opening a list shows what the store holds of it, no more and no less,
/// from its top.
pub proof fn lemma_select_shows_the_stored_list(
    state: StateView,
    list_id: TodoListId,
    row: Option<crate::todo_list::ListRowView>,
    items: Seq<crate::item::ItemRowView>,
)
    requires
        TodoListView::loaded(list_id, row, items) is Ok,
    ensures
        ({
            let todo_list = TodoListView::loaded(list_id, row, items)->Ok_0;
            &&& resumption(
                state,
                PendingView::SelectTodoList { list_id },
                ReplyView::Loaded { row, items },
            ) == (showing(todo_list), StepView::Idle)
            &&& todo_list.id == list_id
            &&& Ok::<Seq<ItemView>, crate::error::Error>(todo_list.items)
                == crate::items::collected(list_id, items)
            &&& todo_list.wf()
        }),
{
    crate::items::lemma_collected_is_ordered(list_id, items);
}

/// A text that is not blank goes to the store trimmed, and never empty.
pub proof fn lemma_committed_text_is_trimmed(mode: TextInputMode, text: Seq<char>)
    requires
        !crate::text::blank(text),
    ensures
        match committed(mode, text) {
            StepView::Ask { pending: PendingView::CreateList { title }, .. } => title == trimmed(
                text,
            ) && title.len() > 0,
            StepView::Ask { pending: PendingView::NewItemLoad { description, .. }, .. }
            | StepView::Ask {
                pending: PendingView::EditItemLoad { description, .. },
                ..
            } => description == trimmed(text) && description.len() > 0,
            _ => false,
        },
{
    crate::text::lemma_trimmed_empty_iff_blank(text);
}

/// Messages that the machine sends to itself do not go on for ever: after
/// at most two of them the machine asks the store or rests.
pub proof fn lemma_chains_are_short(state: StateView, message: Message)
    ensures
        transition(state, message).1 matches StepView::Follow(second) ==> (transition(
            transition(state, message).0,
            second,
        ).1 matches StepView::Follow(third) ==> !(transition(
            transition(transition(state, message).0, second).0,
            third,
        ).1 is Follow)),
{
}

/// The machine keeps its lists and its text well formed.
pub proof fn lemma_transition_keeps_wf(state: StateView, message: Message)
    requires
        state.wf(),
    ensures
        transition(state, message).0.wf(),
        transition(state, message).1 matches StepView::Ask { pending, .. } ==> pending.wf(),
{
    match state {
        StateView::ListView { todo_list, selection } => {
            if let Some(item) = selected_item(todo_list.items, selection) {
                crate::items::lemma_rank_is(
                    todo_list.items,
                    item.id,
                    selection.selected->0 as int,
                );
            }
        },
        _ => {},
    }
}

/// Whatever the store answers, the machine keeps its lists and its text
/// well formed.
pub proof fn lemma_resumption_keeps_wf(state: StateView, pending: PendingView, reply: ReplyView)
    requires
        state.wf(),
        pending.wf(),
    ensures
        resumption(state, pending, reply).0.wf(),
        resumption(state, pending, reply).1 matches StepView::Ask { pending: next, .. }
            ==> next.wf(),
{
    match reply {
        ReplyView::Loaded { row, items } => {
            match pending {
                PendingView::SelectTodoList { list_id }
                | PendingView::NewItemLoad { list_id, .. }
                | PendingView::EditItemLoad { list_id, .. } => {
                    crate::items::lemma_collected_is_ordered(list_id, items);
                    if let Ok(todo_list) = TodoListView::loaded(list_id, row, items) {
                        if let PendingView::EditItemLoad { item_id, .. } = pending {
                            crate::items::lemma_rank_splits(todo_list.items, item_id);
                        }
                    }
                },
                _ => {},
            }
        },
        ReplyView::Inserted { row } => {
            if let PendingView::NewItemAdd { todo_list, description } = pending {
                if let Ok(item) = ItemView::created(todo_list.id, description, row) {
                    crate::items::lemma_changes_keep_order(todo_list.items, item);
                    crate::items::lemma_rank_splits(todo_list.items, item.id);
                }
            }
        },
        ReplyView::Deleted { .. } => {
            if let PendingView::DeleteItem { item_id } = pending {
                if let StateView::ListView { todo_list, .. } = state {
                    crate::items::lemma_rank_splits(todo_list.items, item_id);
                    let item = ItemView { id: item_id, ..todo_list.items[0] };
                    crate::items::lemma_changes_keep_order(todo_list.items, item);
                }
            }
        },
        _ => {},
    }
}

/// The identifier and the completion flag of the item that is selected in
/// `todo_list`.
fn selected_in(todo_list: &TodoList, selection: &Selection) -> (found: Option<(ItemId, bool)>)
    ensures
        found == match selected_item(todo_list@.items, *selection) {
            Some(item) => Some((item.id, item.is_completed)),
            None => None,
        },
{
    match selection.selected() {
        Some(index) => match todo_list.items().at(index) {
            Some(item) => Some((item.id(), item.is_completed())),
            None => None,
        },
        None => None,
    }
}

/// The state that a message ends in where `state` does not expect it.
fn reject(state: State, message: Message) -> (next: (State, Step))
    ensures
        next.0@ == unexpected(state@, message),
        next.1@ == StepView::Idle,
{
    let kind = state.kind();
    (State::Error(Fault::Unexpected { message, state: kind }), Step::Idle)
}

/// The state that a failure of the data ends in.
fn fail(activity: Activity, error: crate::error::Error) -> (next: (State, Step))
    ensures
        next.0@ == StateView::Error(FaultView::Data { activity, error }),
        next.1@ == StepView::Idle,
{
    (State::Error(Fault::Data { activity, error }), Step::Idle)
}

/// The state that a reply ends in which does not answer `pending`.
fn refuse(pending: &Pending, reply: &Reply) -> (next: (State, Step))
    ensures
        (next.0@, next.1@) == out_of_turn(pending@, reply@),
{
    (
        State::Error(Fault::Protocol { activity: pending.activity(), reply: reply.kind() }),
        Step::Idle,
    )
}

/// The state that shows `todo_list` from its top.
fn show(todo_list: TodoList) -> (next: (State, Step))
    ensures
        next.0@ == showing(todo_list@),
        next.1@ == StepView::Idle,
{
    (State::ListView { todo_list, selection: Selection::new() }, Step::Idle)
}

/// Processes `message` in `state`.
fn step(state: State, message: Message) -> (next: (State, Step))
    ensures
        (next.0@, next.1@) == transition(state@, message),
{
    match message {
        Message::Quit => (State::Exit, Step::Idle),
        Message::LoadTodos => (
            state,
            Step::Ask { request: Request::ListAll, pending: Pending::LoadTodos },
        ),
        Message::SelectTodoList(list_id) => (
            state,
            Step::Ask {
                request: Request::LoadList { list_id },
                pending: Pending::SelectTodoList { list_id },
            },
        ),
        Message::NewTodoList => (
            State::TextInput { mode: TextInputMode::NewList, buffer: TextBuffer::new() },
            Step::Idle,
        ),
        Message::DecrementItem => match state {
            State::ListSelect { ids, labels, selection } => {
                let mut selection = selection;
                selection.select_previous(ids.len());
                (State::ListSelect { ids, labels, selection }, Step::Idle)
            },
            State::ListView { todo_list, selection } => {
                let mut selection = selection;
                selection.select_previous(todo_list.items().len());
                (State::ListView { todo_list, selection }, Step::Idle)
            },
            _ => reject(state, message),
        },
        Message::IncrementItem => match state {
            State::ListSelect { ids, labels, selection } => {
                let mut selection = selection;
                selection.select_next(ids.len());
                (State::ListSelect { ids, labels, selection }, Step::Idle)
            },
            State::ListView { todo_list, selection } => {
                let mut selection = selection;
                selection.select_next(todo_list.items().len());
                (State::ListView { todo_list, selection }, Step::Idle)
            },
            _ => reject(state, message),
        },
        Message::DeleteList => match state {
            State::ListSelect { ids, labels, selection } => {
                let target = match selection.selected() {
                    Some(index) => if index < ids.len() {
                        Some(ids[index])
                    } else {
                        None
                    },
                    None => None,
                };
                let state = State::ListSelect { ids, labels, selection };
                match target {
                    Some(list_id) => (
                        state,
                        Step::Ask {
                            request: Request::DeleteList { list_id },
                            pending: Pending::DeleteList,
                        },
                    ),
                    None => (state, Step::Idle),
                }
            },
            _ => reject(state, message),
        },
        Message::NewItem => match state {
            State::ListView { todo_list, .. } => (
                State::TextInput {
                    mode: TextInputMode::NewItem { list_id: todo_list.id() },
                    buffer: TextBuffer::new(),
                },
                Step::Idle,
            ),
            _ => reject(state, message),
        },
        Message::EditItem => match state {
            State::ListView { todo_list, selection } => {
                let opened = match selection.selected() {
                    Some(index) => match todo_list.items().at(index) {
                        Some(item) => Some(
                            State::TextInput {
                                mode: TextInputMode::EditItem {
                                    list_id: todo_list.id(),
                                    item_id: item.id(),
                                },
                                buffer: TextBuffer::from_text(item.description().as_str()),
                            },
                        ),
                        None => None,
                    },
                    None => None,
                };
                match opened {
                    Some(next) => (next, Step::Idle),
                    None => (State::ListView { todo_list, selection }, Step::Idle),
                }
            },
            _ => reject(state, message),
        },
        Message::DeleteItem => match state {
            State::ListView { todo_list, selection } => {
                let target = selected_in(&todo_list, &selection);
                let state = State::ListView { todo_list, selection };
                match target {
                    Some((item_id, _)) => (
                        state,
                        Step::Ask {
                            request: Request::DeleteItem { item_id },
                            pending: Pending::DeleteItem { item_id },
                        },
                    ),
                    None => (state, Step::Idle),
                }
            },
            _ => reject(state, message),
        },
        Message::ToggleItemComplete => match state {
            State::ListView { todo_list, selection } => {
                let mut todo_list = todo_list;
                match selected_in(&todo_list, &selection) {
                    Some((item_id, is_completed)) => {
                        todo_list.set_item_completed(item_id, !is_completed);
                        let writes = todo_list.save();
                        (
                            State::ListView { todo_list, selection },
                            Step::Ask {
                                request: Request::Save { writes },
                                pending: Pending::ToggleItem,
                            },
                        )
                    },
                    None => (State::ListView { todo_list, selection }, Step::Idle),
                }
            },
            _ => reject(state, message),
        },
        Message::CommitTextInput => match state {
            State::TextInput { mode, buffer } => {
                let text = buffer.trimmed();
                let ghost all = buffer@.text;
                let state = State::TextInput { mode, buffer };
                if text.as_str().unicode_len() == 0 {
                    (state, Step::Follow(Message::CancelTextInput))
                } else {
                    match mode {
                        TextInputMode::NewList => (
                            state,
                            Step::Ask {
                                request: Request::CreateList { title: text.clone() },
                                pending: Pending::CreateList { title: text },
                            },
                        ),
                        TextInputMode::NewItem { list_id } => (
                            state,
                            Step::Ask {
                                request: Request::LoadList { list_id },
                                pending: Pending::NewItemLoad { list_id, description: text },
                            },
                        ),
                        TextInputMode::EditItem { list_id, item_id } => (
                            state,
                            Step::Ask {
                                request: Request::LoadList { list_id },
                                pending: Pending::EditItemLoad {
                                    list_id,
                                    item_id,
                                    description: text,
                                },
                            },
                        ),
                    }
                }
            },
            _ => reject(state, message),
        },
        Message::CancelTextInput => match state {
            State::TextInput { mode, buffer } => {
                let back = match mode {
                    TextInputMode::NewList => Message::LoadTodos,
                    TextInputMode::NewItem { list_id } => Message::SelectTodoList(list_id),
                    TextInputMode::EditItem { list_id, .. } => Message::SelectTodoList(list_id),
                };
                (State::TextInput { mode, buffer }, Step::Follow(back))
            },
            _ => reject(state, message),
        },
        Message::InsertChar(_)
        | Message::Backspace
        | Message::Delete
        | Message::CursorLeft
        | Message::CursorRight => match state {
            State::TextInput { mode, buffer } => {
                let mut buffer = buffer;
                match message {
                    Message::InsertChar(c) => buffer.insert(c),
                    Message::Backspace => buffer.backspace(),
                    Message::Delete => buffer.delete(),
                    Message::CursorLeft => buffer.move_left(),
                    Message::CursorRight => buffer.move_right(),
                    _ => {},
                }
                (State::TextInput { mode, buffer }, Step::Idle)
            },
            _ => reject(state, message),
        },
    }
}

/// The identifiers and the titles of `lists`, apart.
fn unzip(lists: Vec<(TodoListId, String)>) -> (parts: (Vec<TodoListId>, Vec<String>))
    ensures
        parts.0@ == lists@.map_values(|list: (TodoListId, String)| list.0),
        parts.1@.map_values(|label: String| label@) == lists@.map_values(
            |list: (TodoListId, String)| list.1@,
        ),
{
    let mut ids: Vec<TodoListId> = Vec::new();
    let mut labels: Vec<String> = Vec::new();
    let mut index: usize = 0;
    while index < lists.len()
        invariant
            index <= lists.len(),
            ids@.len() == index,
            labels@.len() == index,
            forall|j: int| 0 <= j < index ==> ids@[j] == lists@[j].0,
            forall|j: int| 0 <= j < index ==> labels@[j]@ == lists@[j].1@,
        decreases lists.len() - index,
    {
        ids.push(lists[index].0);
        labels.push(lists[index].1.clone());
        index += 1;
    }
    assert(ids@ == lists@.map_values(|list: (TodoListId, String)| list.0));
    assert(labels@.map_values(|label: String| label@) == lists@.map_values(
        |list: (TodoListId, String)| list.1@,
    ));
    (ids, labels)
}

/// Goes on in `state` with the store's `reply` to what `pending` was
/// waiting for.
fn carry_on(state: State, pending: Pending, reply: Reply) -> (next: (State, Step))
    ensures
        (next.0@, next.1@) == resumption(state@, pending@, reply@),
{
    let activity = pending.activity();
    match reply {
        Reply::Failed { detail, written } => (
            State::Error(Fault::Store { activity, detail, written }),
            Step::Idle,
        ),
        Reply::Lists { rows } => match pending {
            Pending::LoadTodos => {
                let lists = TodoList::list_all(&rows);
                let ghost plain = rows@.map_values(|row: (u32, String)| (row.0, row.1@));
                let ghost pairs = lists@.map_values(
                    |list: (TodoListId, String)| (list.0, list.1@),
                );
                let (ids, labels) = unzip(lists);
                assert(ids@ == listed(plain).map_values(|list: (TodoListId, Seq<char>)| list.0));
                assert(labels@.map_values(|label: String| label@) == listed(plain).map_values(
                    |list: (TodoListId, Seq<char>)| list.1,
                ));
                (State::ListSelect { ids, labels, selection: Selection::new() }, Step::Idle)
            },
            _ => refuse(&pending, &Reply::Lists { rows }),
        },
        Reply::Loaded { row, items } => match pending {
            Pending::SelectTodoList { list_id } => match TodoList::load(list_id, row, &items) {
                Ok(todo_list) => show(todo_list),
                Err(error) => fail(activity, error),
            },
            Pending::NewItemLoad { list_id, description } => match TodoList::load(
                list_id,
                row,
                &items,
            ) {
                Ok(todo_list) => (
                    state,
                    Step::Ask {
                        request: Request::AddItem { list_id, description: description.clone() },
                        pending: Pending::NewItemAdd { todo_list, description },
                    },
                ),
                Err(error) => fail(activity, error),
            },
            Pending::EditItemLoad { list_id, item_id, description } => match TodoList::load(
                list_id,
                row,
                &items,
            ) {
                Ok(todo_list) => {
                    let mut todo_list = todo_list;
                    if todo_list.item(item_id).is_some() {
                        todo_list.set_item_description(item_id, description);
                        let writes = todo_list.save();
                        (
                            state,
                            Step::Ask {
                                request: Request::Save { writes },
                                pending: Pending::EditItemSave { todo_list },
                            },
                        )
                    } else {
                        (state, Step::Idle)
                    }
                },
                Err(error) => fail(activity, error),
            },
            _ => refuse(&pending, &Reply::Loaded { row, items }),
        },
        Reply::Inserted { row } => match pending {
            Pending::CreateList { title } => match TodoList::new(title, &row) {
                Ok(_) => (state, Step::Follow(Message::LoadTodos)),
                Err(error) => fail(activity, error),
            },
            Pending::NewItemAdd { todo_list, description } => {
                let mut todo_list = todo_list;
                match todo_list.add_item(description, &row) {
                    Ok(_) => show(todo_list),
                    Err(error) => fail(activity, error),
                }
            },
            _ => refuse(&pending, &Reply::Inserted { row }),
        },
        Reply::Deleted { affected_rows } => match pending {
            Pending::DeleteList => (state, Step::Follow(Message::LoadTodos)),
            Pending::DeleteItem { item_id } => match state {
                State::ListView { todo_list, selection } => {
                    let mut todo_list = todo_list;
                    let mut selection = selection;
                    match todo_list.remove_item(item_id, Item::delete(affected_rows)) {
                        Ok(_) => {
                            selection.clamp(todo_list.items().len());
                            (State::ListView { todo_list, selection }, Step::Idle)
                        },
                        Err(error) => fail(activity, error),
                    }
                },
                _ => refuse(&pending, &Reply::Deleted { affected_rows }),
            },
            _ => refuse(&pending, &Reply::Deleted { affected_rows }),
        },
        Reply::Saved => match pending {
            Pending::ToggleItem => match state {
                State::ListView { todo_list, selection } => {
                    let mut todo_list = todo_list;
                    todo_list.mark_saved();
                    (State::ListView { todo_list, selection }, Step::Idle)
                },
                _ => refuse(&pending, &Reply::Saved),
            },
            Pending::EditItemSave { todo_list } => {
                let mut todo_list = todo_list;
                todo_list.mark_saved();
                show(todo_list)
            },
            _ => refuse(&pending, &Reply::Saved),
        },
    }
}

/// The application: the state of its interface.
#[derive(Debug, PartialEq, Eq)]
pub struct App {
    pub state: State,
}

impl App {
    /// An application that has loaded nothing yet.
    pub fn new() -> (app: App)
        ensures
            app.state@ == StateView::Initial,
    {
        App { state: State::Initial }
    }

    /// Processes `message`, and says what the driver is to do next.
    ///
    /// A message that the state does not expect ends the session in the
    /// error state. Where the store is needed, nothing has changed yet
    /// but what the message itself changes in memory, and the step asks for
    /// the store's work.
    pub fn update(&mut self, message: Message) -> (step: Step)
        ensures
            (final(self).state@, step@) == transition(old(self).state@, message),
    {
        let mut state = State::Exit;
        core::mem::swap(&mut self.state, &mut state);
        let (next, step) = step(state, message);
        self.state = next;
        step
    }

    /// Goes on with the store's `reply` to the request that was handed out
    /// together with `pending`.
    ///
    /// A reply that reports a failure, that cannot be taken into memory,
    /// or that does not answer the request ends the session in the error
    /// state.
    pub fn resume(&mut self, pending: Pending, reply: Reply) -> (step: Step)
        ensures
            (final(self).state@, step@) == resumption(old(self).state@, pending@, reply@),
    {
        let mut state = State::Exit;
        core::mem::swap(&mut self.state, &mut state);
        let (next, step) = carry_on(state, pending, reply);
        self.state = next;
        step
    }
}

} // verus!
