//! The messages that drive the state machine, and the keys that send them.

use crate::fault::StateKind;
use crate::ids::TodoListId;
use crate::state::{State, StateView};
use vstd::prelude::*;

verus! {

/// What the user asked for, or what the application asks of itself.
#[derive(Debug, Clone, Copy, PartialEq, Eq, Hash, Structural)]
pub enum Message {
    /// Fetch all lists and show them for selection.
    LoadTodos,
    /// Move the selection one entry up.
    DecrementItem,
    /// Move the selection one entry down.
    IncrementItem,
    /// Open this list.
    SelectTodoList(TodoListId),
    /// Ask for the title of a new list.
    NewTodoList,
    /// Delete the selected list.
    DeleteList,
    /// Ask for the description of a new item.
    NewItem,
    /// Edit the description of the selected item.
    EditItem,
    /// Delete the selected item.
    DeleteItem,
    /// Flip the completion flag of the selected item.
    ToggleItemComplete,
    /// Accept the text that was entered.
    CommitTextInput,
    /// Discard the text that was entered.
    CancelTextInput,
    /// Insert a character at the cursor.
    InsertChar(char),
    /// Delete the character before the cursor.
    Backspace,
    /// Delete the character at the cursor.
    Delete,
    CursorLeft,
    CursorRight,
    /// Leave.
    Quit,
}

/// The key of a key press, as far as the application tells keys apart.
#[derive(Debug, Clone, Copy, PartialEq, Eq, Hash, Structural)]
pub enum KeyCode {
    Up,
    Down,
    Left,
    Right,
    Enter,
    Esc,
    Backspace,
    Delete,
    Char(char),
    /// Any other key.
    Other,
}

/// A key press.
#[derive(Debug, Clone, Copy, PartialEq, Eq, Hash, Structural)]
pub struct KeyEvent {
    pub code: KeyCode,
    /// Whether the control key was held.
    pub control: bool,
}

impl Message {
    /// The name of the message, without what it carries.
    pub open spec fn spec_name(self) -> Seq<char> {
        match self {
            Message::LoadTodos => "LoadTodos"@,
            Message::DecrementItem => "DecrementItem"@,
            Message::IncrementItem => "IncrementItem"@,
            Message::SelectTodoList(_) => "SelectTodoList"@,
            Message::NewTodoList => "NewTodoList"@,
            Message::DeleteList => "DeleteList"@,
            Message::NewItem => "NewItem"@,
            Message::EditItem => "EditItem"@,
            Message::DeleteItem => "DeleteItem"@,
            Message::ToggleItemComplete => "ToggleItemComplete"@,
            Message::CommitTextInput => "CommitTextInput"@,
            Message::CancelTextInput => "CancelTextInput"@,
            Message::InsertChar(_) => "InsertChar"@,
            Message::Backspace => "Backspace"@,
            Message::Delete => "Delete"@,
            Message::CursorLeft => "CursorLeft"@,
            Message::CursorRight => "CursorRight"@,
            Message::Quit => "Quit"@,
        }
    }

    /// The name of the message, without what it carries.
    pub fn name(self) -> (name: &'static str)
        ensures
            name@ == self.spec_name(),
    {
        match self {
            Message::LoadTodos => "LoadTodos",
            Message::DecrementItem => "DecrementItem",
            Message::IncrementItem => "IncrementItem",
            Message::SelectTodoList(_) => "SelectTodoList",
            Message::NewTodoList => "NewTodoList",
            Message::DeleteList => "DeleteList",
            Message::NewItem => "NewItem",
            Message::EditItem => "EditItem",
            Message::DeleteItem => "DeleteItem",
            Message::ToggleItemComplete => "ToggleItemComplete",
            Message::CommitTextInput => "CommitTextInput",
            Message::CancelTextInput => "CancelTextInput",
            Message::InsertChar(_) => "InsertChar",
            Message::Backspace => "Backspace",
            Message::Delete => "Delete",
            Message::CursorLeft => "CursorLeft",
            Message::CursorRight => "CursorRight",
            Message::Quit => "Quit",
        }
    }

    /// Whether the state machine expects this message in a state of the
    /// kind `state`. A message that is not expected ends the session.
    pub open spec fn expected_in(self, state: StateKind) -> bool {
        match self {
            Message::LoadTodos | Message::SelectTodoList(_) | Message::NewTodoList | Message::Quit => true,
            Message::DecrementItem | Message::IncrementItem => state is ListSelect
                || state is ListView,
            Message::DeleteList => state is ListSelect,
            Message::NewItem | Message::EditItem | Message::DeleteItem | Message::ToggleItemComplete => state is ListView,
            Message::CommitTextInput
            | Message::CancelTextInput
            | Message::InsertChar(_)
            | Message::Backspace
            | Message::Delete
            | Message::CursorLeft
            | Message::CursorRight => state is TextInput,
        }
    }

    /// The message that a state sends by itself.
    pub open spec fn automatic(state: StateView) -> Option<Message> {
        if state is Initial {
            Some(Message::LoadTodos)
        } else {
            None
        }
    }

    /// The message that a key sends in a state that gives keys a meaning of
    /// its own.
    pub open spec fn stateful(state: StateView, key: KeyEvent) -> Option<Message> {
        match state {
            StateView::ListSelect { ids, selection, .. } => match key.code {
                KeyCode::Up => Some(Message::DecrementItem),
                KeyCode::Down => Some(Message::IncrementItem),
                KeyCode::Enter => match selection.selected {
                    Some(index) if index < ids.len() => Some(
                        Message::SelectTodoList(ids[index as int]),
                    ),
                    _ => None,
                },
                KeyCode::Char(c) if c == 'n' => Some(Message::NewTodoList),
                _ => None,
            },
            StateView::ListView { .. } => match key.code {
                KeyCode::Esc => Some(Message::LoadTodos),
                KeyCode::Up => Some(Message::DecrementItem),
                KeyCode::Down => Some(Message::IncrementItem),
                KeyCode::Char(c) => if c == ' ' {
                    Some(Message::ToggleItemComplete)
                } else if c == 'n' {
                    Some(Message::NewItem)
                } else if c == 'e' {
                    Some(Message::EditItem)
                } else if c == 'x' {
                    Some(Message::DeleteItem)
                } else if c == 'q' {
                    Some(Message::Quit)
                } else {
                    None
                },
                _ => None,
            },
            StateView::TextInput { .. } => match key.code {
                KeyCode::Esc => Some(Message::CancelTextInput),
                KeyCode::Enter => Some(Message::CommitTextInput),
                KeyCode::Backspace => Some(Message::Backspace),
                KeyCode::Delete => Some(Message::Delete),
                KeyCode::Left => Some(Message::CursorLeft),
                KeyCode::Right => Some(Message::CursorRight),
                KeyCode::Char(c) => if key.control {
                    None
                } else {
                    Some(Message::InsertChar(c))
                },
                _ => None,
            },
            _ => None,
        }
    }

    /// The message that a key sends where the state gives it none: outside
    /// text entry, `Esc` and `q` leave.
    pub open spec fn fallback(state: StateView, key: KeyEvent) -> Option<Message> {
        if state is TextInput {
            None
        } else {
            match key.code {
                KeyCode::Esc => Some(Message::Quit),
                KeyCode::Char(c) if c == 'q' => Some(Message::Quit),
                _ => None,
            }
        }
    }

    /// The next message: what the state sends by itself, else what the key
    /// means in it.
    pub open spec fn next(state: StateView, key: Option<KeyEvent>) -> Option<Message> {
        match Message::automatic(state) {
            Some(message) => Some(message),
            None => match key {
                None => None,
                Some(key) => match Message::stateful(state, key) {
                    Some(message) => Some(message),
                    None => Message::fallback(state, key),
                },
            },
        }
    }

    /// The message that `state` sends by itself, without any input: the
    /// initial state loads the lists.
    pub fn automatic_state_transitions(state: &State) -> (message: Option<Message>)
        ensures
            message == Message::automatic(state@),
    {
        match state {
            State::Initial => Some(Message::LoadTodos),
            _ => None,
        }
    }

    /// The message that `key` sends in `state`, where the state gives the
    /// key a meaning of its own.
    pub fn stateful_keys(state: &State, key: KeyEvent) -> (message: Option<Message>)
        ensures
            message == Message::stateful(state@, key),
    {
        match state {
            State::ListSelect { ids, selection, .. } => match key.code {
                KeyCode::Up => Some(Message::DecrementItem),
                KeyCode::Down => Some(Message::IncrementItem),
                KeyCode::Enter => match selection.selected() {
                    Some(index) => if index < ids.len() {
                        Some(Message::SelectTodoList(ids[index]))
                    } else {
                        None
                    },
                    None => None,
                },
                KeyCode::Char(c) => if c == 'n' {
                    Some(Message::NewTodoList)
                } else {
                    None
                },
                _ => None,
            },
            State::ListView { .. } => match key.code {
                KeyCode::Esc => Some(Message::LoadTodos),
                KeyCode::Up => Some(Message::DecrementItem),
                KeyCode::Down => Some(Message::IncrementItem),
                KeyCode::Char(c) => if c == ' ' {
                    Some(Message::ToggleItemComplete)
                } else if c == 'n' {
                    Some(Message::NewItem)
                } else if c == 'e' {
                    Some(Message::EditItem)
                } else if c == 'x' {
                    Some(Message::DeleteItem)
                } else if c == 'q' {
                    Some(Message::Quit)
                } else {
                    None
                },
                _ => None,
            },
            State::TextInput { .. } => match key.code {
                KeyCode::Esc => Some(Message::CancelTextInput),
                KeyCode::Enter => Some(Message::CommitTextInput),
                KeyCode::Backspace => Some(Message::Backspace),
                KeyCode::Delete => Some(Message::Delete),
                KeyCode::Left => Some(Message::CursorLeft),
                KeyCode::Right => Some(Message::CursorRight),
                KeyCode::Char(c) => if key.control {
                    None
                } else {
                    Some(Message::InsertChar(c))
                },
                _ => None,
            },
            _ => None,
        }
    }

    /// The next message for `state`, given the key press that arrived
    /// within the wait, if one did.
    ///
    /// What the state sends by itself comes first. A key means what the
    /// state says it means; where the state says nothing, `Esc` and `q`
    /// leave, except during text entry.
    pub fn from_event(state: &State, key: Option<KeyEvent>) -> (message: Option<Message>)
        ensures
            message == Message::next(state@, key),
    {
        match Message::automatic_state_transitions(state) {
            Some(message) => {
                return Some(message);
            },
            None => {},
        }
        let key = match key {
            Some(key) => key,
            None => {
                return None;
            },
        };
        match Message::stateful_keys(state, key) {
            Some(message) => {
                return Some(message);
            },
            None => {},
        }
        match state {
            State::TextInput { .. } => None,
            _ => match key.code {
                KeyCode::Esc => Some(Message::Quit),
                KeyCode::Char(c) => if c == 'q' {
                    Some(Message::Quit)
                } else {
                    None
                },
                _ => None,
            },
        }
    }
}

} // verus!
