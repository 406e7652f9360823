//! Why a session ended in the error state.

use crate::error::Error;
use crate::message::Message;
use vstd::prelude::*;
use vstd::string::StringExecFns;

verus! {

/// The kinds of state, without what they carry.
#[derive(Debug, Clone, Copy, PartialEq, Eq, Hash, Structural)]
pub enum StateKind {
    Initial,
    ListSelect,
    ListView,
    TextInput,
    Error,
    Exit,
}

/// What the application was doing with the store when something failed.
#[derive(Debug, Clone, Copy, PartialEq, Eq, Hash, Structural)]
pub enum Activity {
    ListingLists,
    LoadingList,
    DeletingList,
    DeletingItem,
    SavingToggle,
    CreatingList,
    LoadingForNewItem,
    AddingItem,
    LoadingForEdit,
    SavingEdit,
}

/// The kinds of reply that the store gives.
#[derive(Debug, Clone, Copy, PartialEq, Eq, Hash, Structural)]
pub enum ReplyKind {
    Lists,
    Loaded,
    Inserted,
    Deleted,
    Saved,
    Failed,
}

/// A description of what failed, carried by the error state.
#[derive(Debug, Clone, PartialEq, Eq)]
pub enum Fault {
    /// A message arrived in a state that does not expect it.
    Unexpected { message: Message, state: StateKind },
    /// The store could not carry out a request; `detail` is its account.
    /// Where the request was a save, `written` of its writes had been made.
    Store { activity: Activity, detail: String, written: usize },
    /// What the store returned cannot be taken into memory.
    Data { activity: Activity, error: Error },
    /// The reply does not answer what was asked, or the state that waited
    /// for it is gone.
    Protocol { activity: Activity, reply: ReplyKind },
}

/// The mathematical content of a [`Fault`].
pub enum FaultView {
    Unexpected { message: Message, state: StateKind },
    Store { activity: Activity, detail: Seq<char>, written: usize },
    Data { activity: Activity, error: Error },
    Protocol { activity: Activity, reply: ReplyKind },
}

impl View for Fault {
    type V = FaultView;

    open spec fn view(&self) -> FaultView {
        match *self {
            Fault::Unexpected { message, state } => FaultView::Unexpected { message, state },
            Fault::Store { activity, detail, written } => FaultView::Store {
                activity,
                detail: detail@,
                written,
            },
            Fault::Data { activity, error } => FaultView::Data { activity, error },
            Fault::Protocol { activity, reply } => FaultView::Protocol { activity, reply },
        }
    }
}

impl StateKind {
    /// The name of the kind.
    pub open spec fn spec_name(self) -> Seq<char> {
        match self {
            StateKind::Initial => "Initial"@,
            StateKind::ListSelect => "ListSelect"@,
            StateKind::ListView => "ListView"@,
            StateKind::TextInput => "TextInput"@,
            StateKind::Error => "Error"@,
            StateKind::Exit => "Exit"@,
        }
    }

    /// The name of the kind.
    pub fn name(self) -> (name: &'static str)
        ensures
            name@ == self.spec_name(),
    {
        match self {
            StateKind::Initial => "Initial",
            StateKind::ListSelect => "ListSelect",
            StateKind::ListView => "ListView",
            StateKind::TextInput => "TextInput",
            StateKind::Error => "Error",
            StateKind::Exit => "Exit",
        }
    }
}

impl Activity {
    /// What the application was doing, in words.
    pub open spec fn spec_context(self) -> Seq<char> {
        match self {
            Activity::ListingLists => "listing all todo lists"@,
            Activity::LoadingList => "loading todo list"@,
            Activity::DeletingList => "deleting todo list"@,
            Activity::DeletingItem => "deleting item"@,
            Activity::SavingToggle => "saving after toggle"@,
            Activity::CreatingList => "creating new todo list"@,
            Activity::LoadingForNewItem => "loading list for new item"@,
            Activity::AddingItem => "adding new item"@,
            Activity::LoadingForEdit => "loading list for edit item"@,
            Activity::SavingEdit => "saving edited item"@,
        }
    }

    /// What the application was doing, in words.
    pub fn context(self) -> (context: &'static str)
        ensures
            context@ == self.spec_context(),
    {
        match self {
            Activity::ListingLists => "listing all todo lists",
            Activity::LoadingList => "loading todo list",
            Activity::DeletingList => "deleting todo list",
            Activity::DeletingItem => "deleting item",
            Activity::SavingToggle => "saving after toggle",
            Activity::CreatingList => "creating new todo list",
            Activity::LoadingForNewItem => "loading list for new item",
            Activity::AddingItem => "adding new item",
            Activity::LoadingForEdit => "loading list for edit item",
            Activity::SavingEdit => "saving edited item",
        }
    }
}

impl FaultView {
    /// The text of `describe`. For an unexpected message it names the
    /// message and the state; for the rest it says what was being done and
    /// what went wrong.
    pub open spec fn description(self) -> Seq<char> {
        match self {
            FaultView::Unexpected { message, state } => "unexpected Message::"@
                + message.spec_name() + " in state "@ + state.spec_name(),
            FaultView::Store { activity, detail, .. } => activity.spec_context() + ": "@
                + detail,
            FaultView::Data { activity, error } => activity.spec_context() + ": "@
                + error.description(),
            FaultView::Protocol { activity, reply } => activity.spec_context()
                + ": the reply does not answer the request"@,
        }
    }
}

impl Fault {
    /// A sentence for the operator.
    pub fn describe(&self) -> (text: String)
        ensures
            text@ == self@.description(),
    {
        match self {
            Fault::Unexpected { message, state } => {
                let mut text = String::from_str("unexpected Message::");
                text.append(message.name());
                text.append(" in state ");
                text.append(state.name());
                text
            },
            Fault::Store { activity, detail, .. } => {
                let mut text = String::from_str(activity.context());
                text.append(": ");
                text.append(detail.as_str());
                text
            },
            Fault::Data { activity, error } => {
                let mut text = String::from_str(activity.context());
                text.append(": ");
                let reason = error.describe();
                text.append(reason.as_str());
                text
            },
            Fault::Protocol { activity, .. } => {
                let mut text = String::from_str(activity.context());
                text.append(": the reply does not answer the request");
                text
            },
        }
    }
}

} // verus!
