use todo_list::error::Error;
use todo_list::fault::{Activity, Fault, ReplyKind, StateKind};
use todo_list::ids::{ItemId, TodoListId};
use todo_list::item::{Inserted, ItemRow, Write};
use todo_list::message::{KeyCode, KeyEvent, Message};
use todo_list::selection::Selection;
use todo_list::state::{State, TextInputMode};
use todo_list::store::{Reply, Request};
use todo_list::text::TextBuffer;
use todo_list::todo_list::{ListRow, TodoList};
use todo_list::update::{App, Pending, Step};
use todo_list::view::{view, Hint, Line, Screen, Shares};

const NOW: &str = "2024-05-06 07:08:09";

/// A store in memory that answers as the real one would.
struct Store {
    lists: Vec<(u32, String)>,
    items: Vec<(u32, u32, String, bool)>,
    next_list: u32,
    next_item: u32,
    requests: Vec<Request>,
    writes: usize,
    broken: bool,
}

impl Store {
    fn new() -> Store {
        Store {
            lists: Vec::new(),
            items: Vec::new(),
            next_list: 1,
            next_item: 1,
            requests: Vec::new(),
            writes: 0,
            broken: false,
        }
    }

    fn perform(&mut self, request: Request) -> Reply {
        self.requests.push(request.clone());
        if self.broken {
            return Reply::Failed { detail: "disk full".to_string(), written: 0 };
        }
        match request {
            Request::ListAll => Reply::Lists { rows: self.lists.clone() },
            Request::CreateList { title } => {
                let id = self.next_list;
                self.next_list += 1;
                self.lists.push((id, title));
                Reply::Inserted { row: Inserted { id, created_at: NOW.to_string() } }
            }
            Request::LoadList { list_id } => {
                match self.lists.iter().find(|(id, _)| *id == list_id.value()) {
                    None => Reply::Loaded { row: None, items: Vec::new() },
                    Some((_, title)) => Reply::Loaded {
                        row: Some(ListRow { title: title.clone(), created_at: NOW.to_string() }),
                        items: self
                            .items
                            .iter()
                            .rev()
                            .filter(|item| item.1 == list_id.value())
                            .map(|item| ItemRow {
                                id: item.0,
                                description: item.2.clone(),
                                is_completed: item.3,
                                created_at: NOW.to_string(),
                            })
                            .collect(),
                    },
                }
            }
            Request::DeleteList { list_id } => {
                let before = self.lists.len();
                self.lists.retain(|(id, _)| *id != list_id.value());
                self.items.retain(|item| item.1 != list_id.value());
                Reply::Deleted { affected_rows: (before - self.lists.len()) as u64 }
            }
            Request::AddItem { list_id, description } => {
                let id = self.next_item;
                self.next_item += 1;
                self.items.push((id, list_id.value(), description, false));
                Reply::Inserted { row: Inserted { id, created_at: NOW.to_string() } }
            }
            Request::DeleteItem { item_id } => {
                let before = self.items.len();
                self.items.retain(|item| item.0 != item_id.value());
                Reply::Deleted { affected_rows: (before - self.items.len()) as u64 }
            }
            Request::Save { writes } => {
                for write in writes {
                    self.writes += 1;
                    match write {
                        Write::Item { item_id, description, is_completed } => {
                            for item in self.items.iter_mut() {
                                if item.0 == item_id.value() {
                                    item.2 = description.clone();
                                    item.3 = is_completed;
                                }
                            }
                        }
                        Write::List { list_id, title } => {
                            for list in self.lists.iter_mut() {
                                if list.0 == list_id.value() {
                                    list.1 = title.clone();
                                }
                            }
                        }
                    }
                }
                Reply::Saved
            }
        }
    }
}

/// Processes `message` and whatever follows from it, as the driver does.
fn drive(app: &mut App, store: &mut Store, message: Message) {
    let mut current = Some(message);
    while let Some(message) = current.take() {
        let mut step = app.update(message);
        loop {
            match step {
                Step::Idle => break,
                Step::Follow(next) => {
                    current = Some(next);
                    break;
                }
                Step::Ask { request, pending } => {
                    let reply = store.perform(request);
                    step = app.resume(pending, reply);
                }
            }
        }
    }
}

fn type_text(app: &mut App, store: &mut Store, text: &str) {
    for c in text.chars() {
        drive(app, store, Message::InsertChar(c));
    }
}

fn key(code: KeyCode) -> KeyEvent {
    KeyEvent { code, control: false }
}

fn list_select(ids: &[u32], selected: Option<usize>) -> State {
    State::ListSelect {
        ids: ids.iter().map(|id| TodoListId(*id)).collect(),
        labels: ids.iter().map(|id| format!("list {id}")).collect(),
        selection: Selection { selected, offset: 0 },
    }
}

fn some_list(item_ids: &[u32]) -> TodoList {
    let rows: Vec<ItemRow> = item_ids
        .iter()
        .map(|id| ItemRow {
            id: *id,
            description: format!("item {id}"),
            is_completed: false,
            created_at: NOW.to_string(),
        })
        .collect();
    TodoList::load(
        TodoListId(1),
        Some(ListRow { title: "Chores".to_string(), created_at: NOW.to_string() }),
        &rows,
    )
    .unwrap()
}

fn list_view(item_ids: &[u32], selected: Option<usize>) -> State {
    State::ListView { todo_list: some_list(item_ids), selection: Selection { selected, offset: 0 } }
}

fn text_input(mode: TextInputMode, text: &str) -> State {
    State::TextInput { mode, buffer: TextBuffer::from_text(text) }
}

fn one_of_each_state() -> Vec<State> {
    vec![
        State::Initial,
        list_select(&[1, 2], Some(0)),
        list_view(&[1, 2], Some(0)),
        text_input(TextInputMode::NewList, "x"),
        State::Error(Fault::Protocol { activity: Activity::LoadingList, reply: ReplyKind::Saved }),
        State::Exit,
    ]
}

fn all_messages() -> Vec<Message> {
    vec![
        Message::LoadTodos,
        Message::DecrementItem,
        Message::IncrementItem,
        Message::SelectTodoList(TodoListId(1)),
        Message::NewTodoList,
        Message::DeleteList,
        Message::NewItem,
        Message::EditItem,
        Message::DeleteItem,
        Message::ToggleItemComplete,
        Message::CommitTextInput,
        Message::CancelTextInput,
        Message::InsertChar('a'),
        Message::Backspace,
        Message::Delete,
        Message::CursorLeft,
        Message::CursorRight,
        Message::Quit,
    ]
}

fn expected(message: Message, kind: StateKind) -> bool {
    match message {
        Message::LoadTodos | Message::SelectTodoList(_) | Message::NewTodoList | Message::Quit => true,
        Message::DecrementItem | Message::IncrementItem => {
            kind == StateKind::ListSelect || kind == StateKind::ListView
        }
        Message::DeleteList => kind == StateKind::ListSelect,
        Message::NewItem | Message::EditItem | Message::DeleteItem | Message::ToggleItemComplete => {
            kind == StateKind::ListView
        }
        _ => kind == StateKind::TextInput,
    }
}

#[test]
fn initial_state_loads_the_lists_without_input() {
    let mut store = Store::new();
    store.lists.push((4, "Work".to_string()));
    store.lists.push((2, "Home".to_string()));
    let mut app = App::new();
    assert_eq!(app.state, State::Initial);
    assert_eq!(State::default(), State::Initial);
    let message = Message::from_event(&app.state, None).unwrap();
    assert_eq!(message, Message::LoadTodos);
    drive(&mut app, &mut store, message);
    assert_eq!(
        app.state,
        State::ListSelect {
            ids: vec![TodoListId(4), TodoListId(2)],
            labels: vec!["Work".to_string(), "Home".to_string()],
            selection: Selection::new(),
        }
    );
    assert_eq!(Message::from_event(&app.state, None), None);
}

#[test]
fn created_item_toggled_and_reloaded_is_completed() {
    let mut store = Store::new();
    let mut app = App::new();
    drive(&mut app, &mut store, Message::LoadTodos);
    drive(&mut app, &mut store, Message::NewTodoList);
    type_text(&mut app, &mut store, "Groceries");
    drive(&mut app, &mut store, Message::CommitTextInput);
    assert_eq!(
        app.state,
        State::ListSelect {
            ids: vec![TodoListId(1)],
            labels: vec!["Groceries".to_string()],
            selection: Selection::new(),
        }
    );
    drive(&mut app, &mut store, Message::IncrementItem);
    let open = Message::from_event(&app.state, Some(key(KeyCode::Enter))).unwrap();
    assert_eq!(open, Message::SelectTodoList(TodoListId(1)));
    drive(&mut app, &mut store, open);
    let list_id = match &app.state {
        State::ListView { todo_list, .. } => {
            assert_eq!(todo_list.title(), "Groceries");
            assert!(todo_list.items().is_empty());
            todo_list.id()
        }
        other => panic!("unexpected state {other:?}"),
    };
    drive(&mut app, &mut store, Message::NewItem);
    assert_eq!(app.state, text_input(TextInputMode::NewItem { list_id }, ""));
    type_text(&mut app, &mut store, "Milk");
    drive(&mut app, &mut store, Message::CommitTextInput);
    drive(&mut app, &mut store, Message::IncrementItem);
    drive(&mut app, &mut store, Message::ToggleItemComplete);
    match &app.state {
        State::ListView { todo_list, selection } => {
            assert_eq!(selection.selected(), Some(0));
            let item = todo_list.items().at(0).unwrap();
            assert!(item.is_completed());
            assert!(!item.dirty());
        }
        other => panic!("unexpected state {other:?}"),
    }
    assert_eq!(store.writes, 1);

    let mut fresh = App::new();
    drive(&mut fresh, &mut store, Message::SelectTodoList(list_id));
    match &fresh.state {
        State::ListView { todo_list, selection } => {
            assert_eq!(*selection, Selection::new());
            assert_eq!(todo_list.title(), "Groceries");
            assert_eq!(todo_list.items().len(), 1);
            let item = todo_list.items().at(0).unwrap();
            assert!(item.is_completed());
            assert_eq!(item.description(), "Milk");
            assert_eq!(item.list_id(), list_id);
        }
        other => panic!("unexpected state {other:?}"),
    }
}

#[test]
fn blank_new_item_returns_to_the_list_without_creating() {
    let mut store = Store::new();
    store.lists.push((1, "Chores".to_string()));
    store.items.push((5, 1, "sweep".to_string(), false));
    let mut app = App::new();
    app.state = text_input(TextInputMode::NewItem { list_id: TodoListId(1) }, "   ");
    drive(&mut app, &mut store, Message::CommitTextInput);
    match &app.state {
        State::ListView { todo_list, .. } => {
            assert_eq!(todo_list.id(), TodoListId(1));
            assert_eq!(todo_list.item_ids(), vec![ItemId(5)]);
        }
        other => panic!("unexpected state {other:?}"),
    }
    assert_eq!(store.items.len(), 1);
    assert_eq!(store.requests, vec![Request::LoadList { list_id: TodoListId(1) }]);
}

#[test]
fn blank_commit_is_a_cancellation_in_every_mode() {
    for mode in [
        TextInputMode::NewList,
        TextInputMode::NewItem { list_id: TodoListId(1) },
        TextInputMode::EditItem { list_id: TodoListId(1), item_id: ItemId(2) },
    ] {
        for text in ["", " ", "\t \n"] {
            let mut app = App { state: text_input(mode, text) };
            assert_eq!(app.update(Message::CommitTextInput), Step::Follow(Message::CancelTextInput));
            assert_eq!(app.state, text_input(mode, text));
        }
    }
}

#[test]
fn edit_item_outside_list_view_is_an_error_that_names_both() {
    let mut app = App { state: list_select(&[1, 2], Some(0)) };
    assert_eq!(app.update(Message::EditItem), Step::Idle);
    match &app.state {
        State::Error(failure) => {
            assert_eq!(
                *failure,
                Fault::Unexpected { message: Message::EditItem, state: StateKind::ListSelect }
            );
            let text = failure.describe();
            assert!(text.contains("EditItem"));
            assert!(text.contains("ListSelect"));
            assert_eq!(text, "unexpected Message::EditItem in state ListSelect");
        }
        other => panic!("unexpected state {other:?}"),
    }
    assert!(app.state.is_terminal());
}

#[test]
fn messages_outside_their_states_end_in_the_error_state() {
    for message in all_messages() {
        for state in one_of_each_state() {
            let kind = state.kind();
            let mut app = App { state };
            let step = app.update(message);
            if expected(message, kind) {
                assert!(
                    !matches!(app.state, State::Error(Fault::Unexpected { .. })),
                    "{message:?} in {kind:?}"
                );
            } else {
                assert_eq!(step, Step::Idle);
                assert_eq!(app.state, State::Error(Fault::Unexpected { message, state: kind }));
            }
        }
    }
}

#[test]
fn quit_exits_from_every_state() {
    for state in one_of_each_state() {
        let mut app = App { state };
        assert_eq!(app.update(Message::Quit), Step::Idle);
        assert_eq!(app.state, State::Exit);
        assert!(app.state.is_terminal());
    }
}

#[test]
fn only_exit_and_error_are_terminal() {
    let kinds: Vec<(StateKind, bool)> =
        one_of_each_state().iter().map(|state| (state.kind(), state.is_terminal())).collect();
    assert_eq!(
        kinds,
        vec![
            (StateKind::Initial, false),
            (StateKind::ListSelect, false),
            (StateKind::ListView, false),
            (StateKind::TextInput, false),
            (StateKind::Error, true),
            (StateKind::Exit, true),
        ]
    );
}

#[test]
fn decrement_at_the_first_entry_leaves_the_selection() {
    let mut app = App { state: list_select(&[1, 2, 3], Some(0)) };
    assert_eq!(app.update(Message::DecrementItem), Step::Idle);
    assert_eq!(app.state, list_select(&[1, 2, 3], Some(0)));
    let mut app = App { state: list_view(&[1, 2, 3], Some(0)) };
    assert_eq!(app.update(Message::DecrementItem), Step::Idle);
    assert_eq!(app.state, list_view(&[1, 2, 3], Some(0)));
}

#[test]
fn decrement_in_an_empty_collection_leaves_the_selection_unset() {
    for selected in [None, Some(0), Some(3)] {
        let mut app = App { state: list_select(&[], selected) };
        assert_eq!(app.update(Message::DecrementItem), Step::Idle);
        assert_eq!(app.state, list_select(&[], None));
        let mut app = App { state: list_view(&[], selected) };
        assert_eq!(app.update(Message::DecrementItem), Step::Idle);
        assert_eq!(app.state, list_view(&[], None));
    }
}

#[test]
fn increment_and_decrement_move_by_one_within_the_collection() {
    let mut app = App { state: list_view(&[1, 2, 3], None) };
    app.update(Message::IncrementItem);
    assert_eq!(app.state, list_view(&[1, 2, 3], Some(0)));
    app.update(Message::IncrementItem);
    app.update(Message::IncrementItem);
    assert_eq!(app.state, list_view(&[1, 2, 3], Some(2)));
    app.update(Message::IncrementItem);
    assert_eq!(app.state, list_view(&[1, 2, 3], Some(2)));
    app.update(Message::DecrementItem);
    assert_eq!(app.state, list_view(&[1, 2, 3], Some(1)));
    let mut app = App { state: list_select(&[1, 2], None) };
    app.update(Message::DecrementItem);
    assert_eq!(app.state, list_select(&[1, 2], Some(1)));
}

#[test]
fn load_todos_and_select_ask_the_store_from_any_state() {
    for state in one_of_each_state() {
        let mut app = App { state };
        assert_eq!(
            app.update(Message::LoadTodos),
            Step::Ask { request: Request::ListAll, pending: Pending::LoadTodos }
        );
        assert_eq!(
            app.update(Message::SelectTodoList(TodoListId(9))),
            Step::Ask {
                request: Request::LoadList { list_id: TodoListId(9) },
                pending: Pending::SelectTodoList { list_id: TodoListId(9) },
            }
        );
    }
}

#[test]
fn new_todo_list_opens_an_empty_text_entry() {
    for state in one_of_each_state() {
        let mut app = App { state };
        assert_eq!(app.update(Message::NewTodoList), Step::Idle);
        assert_eq!(app.state, text_input(TextInputMode::NewList, ""));
    }
}

#[test]
fn edit_item_prefills_the_description() {
    let mut app = App { state: list_view(&[10, 20], Some(1)) };
    assert_eq!(app.update(Message::EditItem), Step::Idle);
    assert_eq!(
        app.state,
        text_input(
            TextInputMode::EditItem { list_id: TodoListId(1), item_id: ItemId(20) },
            "item 20"
        )
    );
    match &app.state {
        State::TextInput { buffer, .. } => assert_eq!(buffer.cursor(), 7),
        other => panic!("unexpected state {other:?}"),
    }
}

#[test]
fn item_messages_without_a_selection_do_nothing() {
    for message in [Message::EditItem, Message::DeleteItem, Message::ToggleItemComplete] {
        for selected in [None, Some(5)] {
            let mut app = App { state: list_view(&[10, 20], selected) };
            assert_eq!(app.update(message), Step::Idle);
            assert_eq!(app.state, list_view(&[10, 20], selected));
        }
    }
    for selected in [None, Some(5)] {
        let mut app = App { state: list_select(&[1], selected) };
        assert_eq!(app.update(Message::DeleteList), Step::Idle);
        assert_eq!(app.state, list_select(&[1], selected));
    }
}

#[test]
fn edited_item_is_saved_and_shown() {
    let mut store = Store::new();
    store.lists.push((1, "Chores".to_string()));
    store.items.push((10, 1, "sweep".to_string(), false));
    store.items.push((20, 1, "mop".to_string(), true));
    let mut app = App::new();
    drive(&mut app, &mut store, Message::SelectTodoList(TodoListId(1)));
    drive(&mut app, &mut store, Message::IncrementItem);
    drive(&mut app, &mut store, Message::IncrementItem);
    drive(&mut app, &mut store, Message::EditItem);
    drive(&mut app, &mut store, Message::Backspace);
    type_text(&mut app, &mut store, "p the floor  ");
    drive(&mut app, &mut store, Message::CommitTextInput);
    match &app.state {
        State::ListView { todo_list, selection } => {
            assert_eq!(*selection, Selection::new());
            let item = todo_list.item(ItemId(20)).unwrap();
            assert_eq!(item.description(), "mop the floor");
            assert!(item.is_completed());
            assert!(!item.dirty());
        }
        other => panic!("unexpected state {other:?}"),
    }
    assert_eq!(store.items[1], (20, 1, "mop the floor".to_string(), true));
    assert_eq!(store.writes, 1);
}

#[test]
fn editing_to_the_same_text_writes_nothing() {
    let mut store = Store::new();
    store.lists.push((1, "Chores".to_string()));
    store.items.push((10, 1, "sweep".to_string(), false));
    let mut app = App {
        state: text_input(
            TextInputMode::EditItem { list_id: TodoListId(1), item_id: ItemId(10) },
            "sweep",
        ),
    };
    drive(&mut app, &mut store, Message::CommitTextInput);
    assert!(matches!(app.state, State::ListView { .. }));
    assert_eq!(store.writes, 0);
    assert_eq!(
        store.requests,
        vec![Request::LoadList { list_id: TodoListId(1) }, Request::Save { writes: Vec::new() }]
    );
}

#[test]
fn editing_an_item_that_is_gone_changes_nothing() {
    let mut store = Store::new();
    store.lists.push((1, "Chores".to_string()));
    let state = || {
        text_input(TextInputMode::EditItem { list_id: TodoListId(1), item_id: ItemId(10) }, "x")
    };
    let mut app = App { state: state() };
    drive(&mut app, &mut store, Message::CommitTextInput);
    assert_eq!(app.state, state());
    assert_eq!(store.requests, vec![Request::LoadList { list_id: TodoListId(1) }]);
}

#[test]
fn cancel_leads_back_to_where_the_entry_was_opened() {
    let mut app = App { state: text_input(TextInputMode::NewList, "x") };
    assert_eq!(app.update(Message::CancelTextInput), Step::Follow(Message::LoadTodos));
    let mut app = App { state: text_input(TextInputMode::NewItem { list_id: TodoListId(3) }, "x") };
    assert_eq!(
        app.update(Message::CancelTextInput),
        Step::Follow(Message::SelectTodoList(TodoListId(3)))
    );
    let mode = TextInputMode::EditItem { list_id: TodoListId(4), item_id: ItemId(1) };
    let mut app = App { state: text_input(mode, "x") };
    assert_eq!(
        app.update(Message::CancelTextInput),
        Step::Follow(Message::SelectTodoList(TodoListId(4)))
    );
    assert_eq!(app.state, text_input(mode, "x"));
}

#[test]
fn delete_item_removes_from_store_and_memory() {
    let mut store = Store::new();
    store.lists.push((1, "Chores".to_string()));
    store.items.push((10, 1, "sweep".to_string(), false));
    store.items.push((20, 1, "mop".to_string(), false));
    let mut app = App::new();
    drive(&mut app, &mut store, Message::SelectTodoList(TodoListId(1)));
    drive(&mut app, &mut store, Message::DecrementItem);
    drive(&mut app, &mut store, Message::DeleteItem);
    match &app.state {
        State::ListView { todo_list, selection } => {
            assert_eq!(todo_list.item_ids(), vec![ItemId(10)]);
            assert_eq!(selection.selected(), Some(0));
        }
        other => panic!("unexpected state {other:?}"),
    }
    assert_eq!(store.items, vec![(10, 1, "sweep".to_string(), false)]);
    drive(&mut app, &mut store, Message::DeleteItem);
    assert_eq!(
        app.state,
        State::ListView {
            todo_list: some_list_named(&store, 1),
            selection: Selection { selected: None, offset: 0 },
        }
    );
    assert!(store.items.is_empty());
}

fn some_list_named(store: &Store, id: u32) -> TodoList {
    let title = store.lists.iter().find(|list| list.0 == id).unwrap().1.clone();
    TodoList::load(
        TodoListId(id),
        Some(ListRow { title, created_at: NOW.to_string() }),
        &Vec::new(),
    )
    .unwrap()
}

#[test]
fn delete_item_that_the_store_lacks_is_an_error() {
    let mut app = App { state: list_view(&[10, 20], Some(0)) };
    let step = app.update(Message::DeleteItem);
    let pending = match step {
        Step::Ask { request, pending } => {
            assert_eq!(request, Request::DeleteItem { item_id: ItemId(10) });
            pending
        }
        other => panic!("unexpected step {other:?}"),
    };
    assert_eq!(app.resume(pending, Reply::Deleted { affected_rows: 0 }), Step::Idle);
    assert_eq!(
        app.state,
        State::Error(Fault::Data {
            activity: Activity::DeletingItem,
            error: Error::Inconsistent { id: ItemId(10), in_store: false },
        })
    );
}

#[test]
fn delete_list_reloads_the_lists() {
    let mut store = Store::new();
    store.lists.push((1, "Chores".to_string()));
    store.lists.push((2, "Work".to_string()));
    store.items.push((10, 2, "mail".to_string(), false));
    let mut app = App::new();
    drive(&mut app, &mut store, Message::LoadTodos);
    drive(&mut app, &mut store, Message::IncrementItem);
    drive(&mut app, &mut store, Message::IncrementItem);
    drive(&mut app, &mut store, Message::DeleteList);
    assert_eq!(
        app.state,
        State::ListSelect {
            ids: vec![TodoListId(1)],
            labels: vec!["Chores".to_string()],
            selection: Selection::new(),
        }
    );
    assert_eq!(
        store.requests[1..],
        [Request::DeleteList { list_id: TodoListId(2) }, Request::ListAll]
    );
}

#[test]
fn a_failing_store_ends_the_session_with_context() {
    let mut store = Store::new();
    store.broken = true;
    let mut app = App::new();
    drive(&mut app, &mut store, Message::LoadTodos);
    match &app.state {
        State::Error(failure) => {
            assert_eq!(
                *failure,
                Fault::Store {
                    activity: Activity::ListingLists,
                    detail: "disk full".to_string(),
                    written: 0,
                }
            );
            assert_eq!(failure.describe(), "listing all todo lists: disk full");
        }
        other => panic!("unexpected state {other:?}"),
    }
    let mut app = App { state: list_view(&[10], Some(0)) };
    drive(&mut app, &mut store, Message::ToggleItemComplete);
    assert_eq!(
        app.state,
        State::Error(Fault::Store {
            activity: Activity::SavingToggle,
            detail: "disk full".to_string(),
            written: 0,
        })
    );
}

#[test]
fn a_save_that_fails_midway_reports_how_far_it_got() {
    let mut app = App {
        state: text_input(
            TextInputMode::EditItem { list_id: TodoListId(1), item_id: ItemId(10) },
            "x",
        ),
    };
    let reply = Reply::Failed { detail: "locked".to_string(), written: 1 };
    let todo_list = some_list(&[10]);
    assert_eq!(app.resume(Pending::EditItemSave { todo_list }, reply), Step::Idle);
    match &app.state {
        State::Error(fault) => {
            assert_eq!(
                *fault,
                Fault::Store {
                    activity: Activity::SavingEdit,
                    detail: "locked".to_string(),
                    written: 1,
                }
            );
            assert_eq!(fault.describe(), "saving edited item: locked");
        }
        other => panic!("unexpected state {other:?}"),
    }
}

#[test]
fn list_select_keeps_one_label_for_each_list() {
    let mut store = Store::new();
    for (id, title) in [(3u32, "c"), (1, "a"), (2, "b")] {
        store.lists.push((id, title.to_string()));
    }
    let mut app = App::new();
    drive(&mut app, &mut store, Message::LoadTodos);
    for message in [Message::IncrementItem, Message::DecrementItem, Message::IncrementItem] {
        drive(&mut app, &mut store, message);
        match &app.state {
            State::ListSelect { ids, labels, .. } => {
                assert_eq!(ids.len(), 3);
                assert_eq!(labels.len(), ids.len());
            }
            other => panic!("unexpected state {other:?}"),
        }
    }
}

#[test]
fn a_missing_list_ends_the_session() {
    let mut store = Store::new();
    let mut app = App::new();
    drive(&mut app, &mut store, Message::SelectTodoList(TodoListId(5)));
    match &app.state {
        State::Error(failure) => {
            assert_eq!(
                *failure,
                Fault::Data {
                    activity: Activity::LoadingList,
                    error: Error::NotFound { list_id: TodoListId(5) },
                }
            );
            assert_eq!(failure.describe(), "loading todo list: no such todo list");
        }
        other => panic!("unexpected state {other:?}"),
    }
    let mut app =
        App { state: text_input(TextInputMode::NewItem { list_id: TodoListId(5) }, "Milk") };
    drive(&mut app, &mut store, Message::CommitTextInput);
    assert_eq!(
        app.state,
        State::Error(Fault::Data {
            activity: Activity::LoadingForNewItem,
            error: Error::NotFound { list_id: TodoListId(5) },
        })
    );
    assert!(store.items.is_empty());
}

#[test]
fn malformed_rows_end_the_session() {
    let mut app = App::new();
    let row = ListRow { title: "Chores".to_string(), created_at: "garbage".to_string() };
    let step = app.resume(
        Pending::SelectTodoList { list_id: TodoListId(1) },
        Reply::Loaded { row: Some(row), items: Vec::new() },
    );
    assert_eq!(step, Step::Idle);
    match &app.state {
        State::Error(failure) => {
            assert_eq!(
                *failure,
                Fault::Data { activity: Activity::LoadingList, error: Error::MalformedTimestamp }
            );
            assert_eq!(failure.describe(), "loading todo list: malformed creation timestamp");
        }
        other => panic!("unexpected state {other:?}"),
    }
    let mut app = App::new();
    let bad = Inserted { id: 1, created_at: "garbage".to_string() };
    app.resume(Pending::CreateList { title: "x".to_string() }, Reply::Inserted { row: bad });
    assert_eq!(
        app.state,
        State::Error(Fault::Data {
            activity: Activity::CreatingList,
            error: Error::MalformedTimestamp,
        })
    );
}

#[test]
fn a_reply_out_of_turn_ends_the_session() {
    let mut app = App { state: list_select(&[1], None) };
    assert_eq!(app.resume(Pending::LoadTodos, Reply::Saved), Step::Idle);
    match &app.state {
        State::Error(failure) => {
            assert_eq!(
                *failure,
                Fault::Protocol { activity: Activity::ListingLists, reply: ReplyKind::Saved }
            );
            assert_eq!(
                failure.describe(),
                "listing all todo lists: the reply does not answer the request"
            );
        }
        other => panic!("unexpected state {other:?}"),
    }
    let mut app = App { state: list_select(&[1], None) };
    app.resume(Pending::ToggleItem, Reply::Saved);
    assert_eq!(
        app.state,
        State::Error(Fault::Protocol { activity: Activity::SavingToggle, reply: ReplyKind::Saved })
    );
}

#[test]
fn text_messages_edit_the_buffer() {
    let mut app = App { state: text_input(TextInputMode::NewList, "") };
    for message in [
        Message::InsertChar('a'),
        Message::InsertChar('c'),
        Message::CursorLeft,
        Message::InsertChar('b'),
        Message::CursorRight,
        Message::CursorRight,
        Message::InsertChar('x'),
        Message::InsertChar('d'),
        Message::CursorLeft,
        Message::Backspace,
        Message::CursorLeft,
        Message::CursorLeft,
        Message::CursorLeft,
        Message::CursorLeft,
        Message::Backspace,
        Message::Delete,
    ] {
        assert_eq!(app.update(message), Step::Idle);
    }
    match &app.state {
        State::TextInput { mode, buffer } => {
            assert_eq!(*mode, TextInputMode::NewList);
            assert_eq!(buffer.text(), "bcd");
            assert_eq!(buffer.cursor(), 0);
        }
        other => panic!("unexpected state {other:?}"),
    }
}

#[test]
fn committed_title_is_trimmed() {
    let mut app = App { state: text_input(TextInputMode::NewList, "  Groceries \t") };
    assert_eq!(
        app.update(Message::CommitTextInput),
        Step::Ask {
            request: Request::CreateList { title: "Groceries".to_string() },
            pending: Pending::CreateList { title: "Groceries".to_string() },
        }
    );
}

#[test]
fn toggle_flips_and_asks_for_one_write() {
    let mut app = App { state: list_view(&[10, 20], Some(1)) };
    let step = app.update(Message::ToggleItemComplete);
    assert_eq!(
        step,
        Step::Ask {
            request: Request::Save {
                writes: vec![Write::Item {
                    item_id: ItemId(20),
                    description: "item 20".to_string(),
                    is_completed: true,
                }],
            },
            pending: Pending::ToggleItem,
        }
    );
    match &app.state {
        State::ListView { todo_list, .. } => {
            assert!(todo_list.item(ItemId(20)).unwrap().is_completed());
            assert!(todo_list.item(ItemId(20)).unwrap().dirty());
        }
        other => panic!("unexpected state {other:?}"),
    }
    assert_eq!(app.resume(Pending::ToggleItem, Reply::Saved), Step::Idle);
    match &app.state {
        State::ListView { todo_list, .. } => {
            assert!(todo_list.item(ItemId(20)).unwrap().is_completed());
            assert!(todo_list.save().is_empty());
        }
        other => panic!("unexpected state {other:?}"),
    }
}

#[test]
fn keys_in_list_select() {
    let state = list_select(&[7, 8], Some(1));
    assert_eq!(Message::stateful_keys(&state, key(KeyCode::Up)), Some(Message::DecrementItem));
    assert_eq!(Message::stateful_keys(&state, key(KeyCode::Down)), Some(Message::IncrementItem));
    assert_eq!(
        Message::stateful_keys(&state, key(KeyCode::Enter)),
        Some(Message::SelectTodoList(TodoListId(8)))
    );
    assert_eq!(Message::stateful_keys(&state, key(KeyCode::Char('n'))), Some(Message::NewTodoList));
    assert_eq!(Message::stateful_keys(&state, key(KeyCode::Char('x'))), None);
    assert_eq!(Message::stateful_keys(&state, key(KeyCode::Esc)), None);
    assert_eq!(Message::from_event(&state, Some(key(KeyCode::Esc))), Some(Message::Quit));
    assert_eq!(Message::from_event(&state, Some(key(KeyCode::Char('q')))), Some(Message::Quit));
    assert_eq!(Message::from_event(&state, Some(key(KeyCode::Other))), None);
    assert_eq!(Message::from_event(&state, None), None);
    assert_eq!(Message::stateful_keys(&list_select(&[7, 8], None), key(KeyCode::Enter)), None);
    assert_eq!(Message::stateful_keys(&list_select(&[7, 8], Some(2)), key(KeyCode::Enter)), None);
}

#[test]
fn keys_in_list_view() {
    let state = list_view(&[1], None);
    let table = [
        (KeyCode::Esc, Some(Message::LoadTodos)),
        (KeyCode::Up, Some(Message::DecrementItem)),
        (KeyCode::Down, Some(Message::IncrementItem)),
        (KeyCode::Char(' '), Some(Message::ToggleItemComplete)),
        (KeyCode::Char('n'), Some(Message::NewItem)),
        (KeyCode::Char('e'), Some(Message::EditItem)),
        (KeyCode::Char('x'), Some(Message::DeleteItem)),
        (KeyCode::Char('q'), Some(Message::Quit)),
        (KeyCode::Char('z'), None),
        (KeyCode::Enter, None),
        (KeyCode::Left, None),
    ];
    for (code, message) in table {
        assert_eq!(Message::stateful_keys(&state, key(code)), message);
        assert_eq!(Message::from_event(&state, Some(key(code))), message);
    }
}

#[test]
fn keys_in_text_input() {
    let state = text_input(TextInputMode::NewList, "x");
    let table = [
        (KeyCode::Esc, Some(Message::CancelTextInput)),
        (KeyCode::Enter, Some(Message::CommitTextInput)),
        (KeyCode::Backspace, Some(Message::Backspace)),
        (KeyCode::Delete, Some(Message::Delete)),
        (KeyCode::Left, Some(Message::CursorLeft)),
        (KeyCode::Right, Some(Message::CursorRight)),
        (KeyCode::Char('q'), Some(Message::InsertChar('q'))),
        (KeyCode::Char('n'), Some(Message::InsertChar('n'))),
        (KeyCode::Char(' '), Some(Message::InsertChar(' '))),
        (KeyCode::Up, None),
        (KeyCode::Other, None),
    ];
    for (code, message) in table {
        assert_eq!(Message::stateful_keys(&state, key(code)), message);
        assert_eq!(Message::from_event(&state, Some(key(code))), message);
    }
    let control_q = KeyEvent { code: KeyCode::Char('q'), control: true };
    assert_eq!(Message::stateful_keys(&state, control_q), None);
    assert_eq!(Message::from_event(&state, Some(control_q)), None);
}

#[test]
fn keys_in_the_other_states() {
    assert_eq!(Message::automatic_state_transitions(&State::Initial), Some(Message::LoadTodos));
    assert_eq!(
        Message::from_event(&State::Initial, Some(key(KeyCode::Char('q')))),
        Some(Message::LoadTodos)
    );
    let failure = Fault::Protocol { activity: Activity::LoadingList, reply: ReplyKind::Saved };
    for state in [State::Exit, State::Error(failure)] {
        assert_eq!(Message::automatic_state_transitions(&state), None);
        assert_eq!(Message::stateful_keys(&state, key(KeyCode::Up)), None);
        assert_eq!(Message::from_event(&state, Some(key(KeyCode::Up))), None);
        assert_eq!(Message::from_event(&state, Some(key(KeyCode::Esc))), Some(Message::Quit));
    }
    assert_eq!(Message::automatic_state_transitions(&list_select(&[], None)), None);
}

#[test]
fn message_names() {
    assert_eq!(Message::SelectTodoList(TodoListId(1)).name(), "SelectTodoList");
    assert_eq!(Message::InsertChar('x').name(), "InsertChar");
    assert_eq!(Message::Quit.name(), "Quit");
    assert_eq!(StateKind::TextInput.name(), "TextInput");
    assert_eq!(Activity::SavingEdit.context(), "saving edited item");
}

#[test]
fn splash_before_anything_is_loaded() {
    assert_eq!(view(&State::Initial), Screen::Splash { text: "spinning up (<q> or <esc> to quit)" });
}

#[test]
fn list_select_shows_the_titles_or_a_placeholder() {
    let screen = view(&list_select(&[1, 2], Some(1)));
    match screen {
        Screen::List { title, hints, lines, selection } => {
            assert_eq!(title, "Select a Todo list");
            assert_eq!(
                hints,
                vec![
                    Hint { action: "Navigate", key: "↑↓" },
                    Hint { action: "Select", key: "enter" },
                    Hint { action: "New", key: "n" },
                    Hint { action: "Quit", key: "q/esc" },
                ]
            );
            assert_eq!(
                lines,
                vec![
                    Line::Label { text: "list 1".to_string() },
                    Line::Label { text: "list 2".to_string() },
                ]
            );
            assert_eq!(selection.selected(), Some(1));
        }
        other => panic!("unexpected screen {other:?}"),
    }
    match view(&list_select(&[], None)) {
        Screen::List { lines, .. } => assert_eq!(
            lines,
            vec![Line::Placeholder { notice: " (no lists yet - press 'n' to create one)" }]
        ),
        other => panic!("unexpected screen {other:?}"),
    }
}

#[test]
fn list_view_shows_the_items_with_their_boxes() {
    let mut todo_list = some_list(&[20, 10]);
    todo_list.set_item_completed(ItemId(20), true);
    let state = State::ListView { todo_list, selection: Selection::new() };
    match view(&state) {
        Screen::List { title, hints, lines, selection } => {
            assert_eq!(title, "Chores");
            assert_eq!(hints.len(), 7);
            assert_eq!(hints[1], Hint { action: "Toggle", key: "space" });
            assert_eq!(hints[5], Hint { action: "Back", key: "esc" });
            assert_eq!(
                lines,
                vec![
                    Line::Entry {
                        checkbox: "[ ] ",
                        description: "item 10".to_string(),
                        is_completed: false,
                    },
                    Line::Entry {
                        checkbox: "[✓] ",
                        description: "item 20".to_string(),
                        is_completed: true,
                    },
                ]
            );
            assert_eq!(selection, Selection::new());
        }
        other => panic!("unexpected screen {other:?}"),
    }
    match view(&list_view(&[], None)) {
        Screen::List { lines, .. } => assert_eq!(
            lines,
            vec![Line::Placeholder { notice: " (no items yet - press 'n' to create one)" }]
        ),
        other => panic!("unexpected screen {other:?}"),
    }
}

#[test]
fn text_input_shows_the_text_around_the_cursor() {
    let hints = vec![Hint { action: "Confirm", key: "enter" }, Hint { action: "Cancel", key: "esc" }];
    let across = Shares { before: 20, inside: 60, after: 20 };
    let down = Shares { before: 40, inside: 20, after: 40 };
    assert_eq!(
        view(&text_input(TextInputMode::NewList, "")),
        Screen::Modal {
            heading: " Create New Todo List ",
            hints: hints.clone(),
            before: String::new(),
            cursor: '█',
            after: String::new(),
            across,
            down,
        }
    );
    assert_eq!(
        view(&text_input(TextInputMode::NewItem { list_id: TodoListId(1) }, "Milk")),
        Screen::Modal {
            heading: " Create New Item ",
            hints: hints.clone(),
            before: "Milk".to_string(),
            cursor: ' ',
            after: String::new(),
            across,
            down,
        }
    );
    let mut buffer = TextBuffer::from_text("Milk");
    buffer.move_left();
    buffer.move_left();
    let mode = TextInputMode::EditItem { list_id: TodoListId(1), item_id: ItemId(2) };
    assert_eq!(
        view(&State::TextInput { mode, buffer }),
        Screen::Modal {
            heading: " Edit Item ",
            hints,
            before: "Mi".to_string(),
            cursor: 'l',
            after: "k".to_string(),
            across,
            down,
        }
    );
}

#[test]
fn centered_shares_leave_equal_margins() {
    assert_eq!(Shares::centered(60), Shares { before: 20, inside: 60, after: 20 });
    assert_eq!(Shares::centered(20), Shares { before: 40, inside: 20, after: 40 });
    assert_eq!(Shares::centered(100), Shares { before: 0, inside: 100, after: 0 });
    assert_eq!(Shares::centered(0), Shares { before: 50, inside: 0, after: 50 });
    assert_eq!(Shares::centered(75), Shares { before: 12, inside: 75, after: 12 });
}

#[test]
fn new_list_is_created_and_the_lists_are_shown() {
    let mut store = Store::new();
    store.lists.push((1, "Chores".to_string()));
    store.next_list = 2;
    let mut app = App { state: text_input(TextInputMode::NewList, " Work ") };
    drive(&mut app, &mut store, Message::CommitTextInput);
    assert_eq!(
        app.state,
        State::ListSelect {
            ids: vec![TodoListId(1), TodoListId(2)],
            labels: vec!["Chores".to_string(), "Work".to_string()],
            selection: Selection::new(),
        }
    );
    assert_eq!(
        store.requests,
        vec![Request::CreateList { title: "Work".to_string() }, Request::ListAll]
    );
}
