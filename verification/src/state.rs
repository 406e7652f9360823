//! The states of the terminal interface.

use crate::fault::{Fault, FaultView, StateKind};
use crate::ids::{ItemId, TodoListId};
use crate::selection::Selection;
use crate::text::{TextBuffer, TextBufferView};
use crate::todo_list::{TodoList, TodoListView};
use vstd::prelude::*;

verus! {

/// What a text entry is for.
#[derive(Debug, Clone, Copy, PartialEq, Eq, Hash, Structural)]
pub enum TextInputMode {
    /// The title of a new list.
    NewList,
    /// The description of a new item of the list `list_id`.
    NewItem { list_id: TodoListId },
    /// The description of the item `item_id` of the list `list_id`.
    EditItem { list_id: TodoListId, item_id: ItemId },
}

/// The state of the application.
#[derive(Debug, PartialEq, Eq)]
pub enum State {
    /// Nothing is loaded yet.
    Initial,
    /// All lists are shown for selection. `labels` holds the title of each
    /// list of `ids`, in the same order.
    ListSelect { ids: Vec<TodoListId>, labels: Vec<String>, selection: Selection },
    /// The items of one list are shown. `selection` counts the items in key
    /// order.
    ListView { todo_list: TodoList, selection: Selection },
    /// Text is entered in a modal dialog.
    TextInput { mode: TextInputMode, buffer: TextBuffer },
    /// The session failed.
    Error(Fault),
    /// The session ended.
    Exit,
}

/// The mathematical content of a [`State`].
pub enum StateView {
    Initial,
    ListSelect { ids: Seq<TodoListId>, labels: Seq<Seq<char>>, selection: Selection },
    ListView { todo_list: TodoListView, selection: Selection },
    TextInput { mode: TextInputMode, buffer: TextBufferView },
    Error(FaultView),
    Exit,
}

impl View for State {
    type V = StateView;

    open spec fn view(&self) -> StateView {
        match *self {
            State::Initial => StateView::Initial,
            State::ListSelect { ids, labels, selection } => StateView::ListSelect {
                ids: ids@,
                labels: labels@.map_values(|label: String| label@),
                selection,
            },
            State::ListView { todo_list, selection } => StateView::ListView {
                todo_list: todo_list@,
                selection,
            },
            State::TextInput { mode, buffer } => StateView::TextInput { mode, buffer: buffer@ },
            State::Error(failure) => StateView::Error(failure@),
            State::Exit => StateView::Exit,
        }
    }
}

impl StateView {
    /// The kind of this state.
    pub open spec fn kind(self) -> StateKind {
        match self {
            StateView::Initial => StateKind::Initial,
            StateView::ListSelect { .. } => StateKind::ListSelect,
            StateView::ListView { .. } => StateKind::ListView,
            StateView::TextInput { .. } => StateKind::TextInput,
            StateView::Error(_) => StateKind::Error,
            StateView::Exit => StateKind::Exit,
        }
    }

    /// Whether nothing more is to be processed once this state is reached.
    pub open spec fn is_terminal(self) -> bool {
        self is Exit || self is Error
    }

    /// What holds of every state that the state machine reaches: there is
    /// one label for each list that can be selected, a list that is shown
    /// is well formed, and a text that is edited has its cursor within it.
    pub open spec fn wf(self) -> bool {
        match self {
            StateView::ListSelect { ids, labels, .. } => ids.len() == labels.len(),
            StateView::ListView { todo_list, .. } => todo_list.wf(),
            StateView::TextInput { buffer, .. } => buffer.wf(),
            _ => true,
        }
    }
}

impl Default for State {
    /// The state in which the application starts.
    fn default() -> (state: State)
        ensures
            state@ == StateView::Initial,
    {
        State::Initial
    }
}

impl State {
    /// The kind of this state.
    pub fn kind(&self) -> (kind: StateKind)
        ensures
            kind == self@.kind(),
    {
        match self {
            State::Initial => StateKind::Initial,
            State::ListSelect { .. } => StateKind::ListSelect,
            State::ListView { .. } => StateKind::ListView,
            State::TextInput { .. } => StateKind::TextInput,
            State::Error(_) => StateKind::Error,
            State::Exit => StateKind::Exit,
        }
    }

    /// `true` when no further processing should occur once this state is
    /// reached.
    pub fn is_terminal(&self) -> (terminal: bool)
        ensures
            terminal == self@.is_terminal(),
    {
        match self {
            State::Exit => true,
            State::Error(_) => true,
            _ => false,
        }
    }
}

} // verus!
