//! What each state shows.
//!
//! A screen is described here as plain values; drawing it on a terminal is
//! the driver's part.

use crate::item::ItemView;
use crate::selection::Selection;
use crate::state::{State, StateView, TextInputMode};
use crate::text::{TextBuffer, TextBufferView};
use crate::todo_list::TodoList;
use vstd::prelude::*;

verus! {

/// What is shown before anything is loaded.
pub const SPLASH: &'static str = "spinning up (<q> or <esc> to quit)";

/// The title above the lists.
pub const SELECT_TITLE: &'static str = "Select a Todo list";

/// What stands in place of the lists where there are none.
pub const NO_LISTS: &'static str = " (no lists yet - press 'n' to create one)";

/// What stands in place of the items where there are none.
pub const NO_ITEMS: &'static str = " (no items yet - press 'n' to create one)";

/// The box before an item that is completed.
pub const CHECKED: &'static str = "[✓] ";

/// The box before an item that is not completed.
pub const UNCHECKED: &'static str = "[ ] ";

/// The sign that marks the selected line.
pub const HIGHLIGHT: &'static str = "> ";

/// The glyph that stands for the cursor in an empty text.
pub const BLOCK_CURSOR: char = '█';

/// The width of a dialog, in percent of the screen.
pub const MODAL_WIDTH: u16 = 60;

/// The height of a dialog, in percent of the screen.
pub const MODAL_HEIGHT: u16 = 20;

/// How a stretch of the screen is parted, in percent of it, to hold
/// something in its middle.
#[derive(Debug, Clone, Copy, PartialEq, Eq, Hash, Structural)]
pub struct Shares {
    pub before: u16,
    pub inside: u16,
    pub after: u16,
}

impl Shares {
    /// The parting that leaves `percent` of the stretch to the middle and
    /// the same margin on both sides of it.
    pub open spec fn spec_centered(percent: u16) -> Shares {
        Shares {
            before: ((100 - percent) / 2) as u16,
            inside: percent,
            after: ((100 - percent) / 2) as u16,
        }
    }

    /// The parting that leaves `percent` of the stretch to the middle and
    /// the same margin on both sides of it.
    pub fn centered(percent: u16) -> (shares: Shares)
        requires
            percent <= 100,
        ensures
            shares == Shares::spec_centered(percent),
            shares.before + shares.inside + shares.after <= 100,
    {
        let margin = (100 - percent) / 2;
        Shares { before: margin, inside: percent, after: margin }
    }
}

/// One key and what it does, for the line of help at the bottom.
#[derive(Debug, Clone, Copy, PartialEq, Eq)]
pub struct Hint {
    pub action: &'static str,
    pub key: &'static str,
}

/// One line of a list on screen.
#[derive(Debug, Clone, PartialEq, Eq)]
pub enum Line {
    /// Shown, in italics, where the list has no entries.
    Placeholder { notice: &'static str },
    /// The title of a todo list.
    Label { text: String },
    /// An item: its box, then its description, dimmed if it is completed.
    Entry { checkbox: &'static str, description: String, is_completed: bool },
}

/// What is on screen.
#[derive(Debug, Clone, PartialEq, Eq)]
pub enum Screen {
    /// One line of text.
    Splash { text: &'static str },
    /// A framed list with a title, a line of help and a selection.
    List { title: String, hints: Vec<Hint>, lines: Vec<Line>, selection: Selection },
    /// A dialog in the middle of the screen, in which a line of text is
    /// edited: the text before the cursor, the glyph at the cursor, shown
    /// reversed, and the text behind it. `across` and `down` say where on
    /// the screen the dialog stands.
    Modal {
        heading: &'static str,
        hints: Vec<Hint>,
        before: String,
        cursor: char,
        after: String,
        across: Shares,
        down: Shares,
    },
}

/// The mathematical content of a [`Line`].
pub enum LineView {
    Placeholder { notice: Seq<char> },
    Label { text: Seq<char> },
    Entry { checkbox: Seq<char>, description: Seq<char>, is_completed: bool },
}

/// The mathematical content of a [`Screen`]; a hint is a pair of action and
/// key.
pub enum ScreenView {
    Splash { text: Seq<char> },
    List {
        title: Seq<char>,
        hints: Seq<(Seq<char>, Seq<char>)>,
        lines: Seq<LineView>,
        selection: Selection,
    },
    Modal {
        heading: Seq<char>,
        hints: Seq<(Seq<char>, Seq<char>)>,
        before: Seq<char>,
        cursor: char,
        after: Seq<char>,
        across: Shares,
        down: Shares,
    },
}

impl View for Hint {
    type V = (Seq<char>, Seq<char>);

    open spec fn view(&self) -> (Seq<char>, Seq<char>) {
        (self.action@, self.key@)
    }
}

impl View for Line {
    type V = LineView;

    open spec fn view(&self) -> LineView {
        match *self {
            Line::Placeholder { notice } => LineView::Placeholder { notice: notice@ },
            Line::Label { text } => LineView::Label { text: text@ },
            Line::Entry { checkbox, description, is_completed } => LineView::Entry {
                checkbox: checkbox@,
                description: description@,
                is_completed,
            },
        }
    }
}

impl View for Screen {
    type V = ScreenView;

    open spec fn view(&self) -> ScreenView {
        match *self {
            Screen::Splash { text } => ScreenView::Splash { text: text@ },
            Screen::List { title, hints, lines, selection } => ScreenView::List {
                title: title@,
                hints: hints@.map_values(|hint: Hint| hint@),
                lines: lines@.map_values(|line: Line| line@),
                selection,
            },
            Screen::Modal {
                heading,
                hints,
                before,
                cursor,
                after,
                across,
                down,
            } => ScreenView::Modal {
                heading: heading@,
                hints: hints@.map_values(|hint: Hint| hint@),
                before: before@,
                cursor,
                after: after@,
                across,
                down,
            },
        }
    }
}

/// The help below the lists.
pub open spec fn select_hints() -> Seq<(Seq<char>, Seq<char>)> {
    seq![("Navigate"@, "↑↓"@), ("Select"@, "enter"@), ("New"@, "n"@), ("Quit"@, "q/esc"@)]
}

/// The help below the items of a list.
pub open spec fn list_hints() -> Seq<(Seq<char>, Seq<char>)> {
    seq![
        ("Navigate"@, "↑↓"@),
        ("Toggle"@, "space"@),
        ("New"@, "n"@),
        ("Edit"@, "e"@),
        ("Delete"@, "x"@),
        ("Back"@, "esc"@),
        ("Quit"@, "q"@),
    ]
}

/// The help below a text entry.
pub open spec fn input_hints() -> Seq<(Seq<char>, Seq<char>)> {
    seq![("Confirm"@, "enter"@), ("Cancel"@, "esc"@)]
}

/// The title of a text entry.
pub open spec fn input_title(mode: TextInputMode) -> Seq<char> {
    match mode {
        TextInputMode::NewList => " Create New Todo List "@,
        TextInputMode::NewItem { .. } => " Create New Item "@,
        TextInputMode::EditItem { .. } => " Edit Item "@,
    }
}

/// The lines that show `labels`: one for each, or the placeholder.
pub open spec fn label_lines(labels: Seq<Seq<char>>) -> Seq<LineView> {
    if labels.len() == 0 {
        seq![LineView::Placeholder { notice: NO_LISTS@ }]
    } else {
        labels.map_values(|label: Seq<char>| LineView::Label { text: label })
    }
}

/// The line that shows `item`.
pub open spec fn item_line(item: ItemView) -> LineView {
    LineView::Entry {
        checkbox: if item.is_completed {
            CHECKED@
        } else {
            UNCHECKED@
        },
        description: item.description,
        is_completed: item.is_completed,
    }
}

/// The lines that show `items`: one for each, in key order, or the
/// placeholder.
pub open spec fn item_lines(items: Seq<ItemView>) -> Seq<LineView> {
    if items.len() == 0 {
        seq![LineView::Placeholder { notice: NO_ITEMS@ }]
    } else {
        items.map_values(|item: ItemView| item_line(item))
    }
}

/// The glyph at the cursor: the character that the cursor stands on; a
/// space behind the last character; a block in an empty text.
pub open spec fn cursor_glyph(buffer: TextBufferView) -> char {
    if buffer.text.len() == 0 {
        BLOCK_CURSOR
    } else {
        match buffer.under_cursor() {
            Some(c) => c,
            None => ' ',
        }
    }
}

/// What `state` shows. The terminal states show nothing; for them the
/// splash stands here.
pub open spec fn rendered(state: StateView) -> ScreenView {
    match state {
        StateView::ListSelect { labels, selection, .. } => ScreenView::List {
            title: SELECT_TITLE@,
            hints: select_hints(),
            lines: label_lines(labels),
            selection,
        },
        StateView::ListView { todo_list, selection } => ScreenView::List {
            title: todo_list.title,
            hints: list_hints(),
            lines: item_lines(todo_list.items),
            selection,
        },
        StateView::TextInput { mode, buffer } => ScreenView::Modal {
            heading: input_title(mode),
            hints: input_hints(),
            before: buffer.before(),
            cursor: cursor_glyph(buffer),
            after: buffer.after(),
            across: Shares::spec_centered(MODAL_WIDTH),
            down: Shares::spec_centered(MODAL_HEIGHT),
        },
        _ => ScreenView::Splash { text: SPLASH@ },
    }
}

fn hints_of_select() -> (hints: Vec<Hint>)
    ensures
        hints@.map_values(|hint: Hint| hint@) == select_hints(),
{
    let mut hints: Vec<Hint> = Vec::new();
    hints.push(Hint { action: "Navigate", key: "↑↓" });
    hints.push(Hint { action: "Select", key: "enter" });
    hints.push(Hint { action: "New", key: "n" });
    hints.push(Hint { action: "Quit", key: "q/esc" });
    assert(hints@.map_values(|hint: Hint| hint@) == select_hints());
    hints
}

fn hints_of_list() -> (hints: Vec<Hint>)
    ensures
        hints@.map_values(|hint: Hint| hint@) == list_hints(),
{
    let mut hints: Vec<Hint> = Vec::new();
    hints.push(Hint { action: "Navigate", key: "↑↓" });
    hints.push(Hint { action: "Toggle", key: "space" });
    hints.push(Hint { action: "New", key: "n" });
    hints.push(Hint { action: "Edit", key: "e" });
    hints.push(Hint { action: "Delete", key: "x" });
    hints.push(Hint { action: "Back", key: "esc" });
    hints.push(Hint { action: "Quit", key: "q" });
    assert(hints@.map_values(|hint: Hint| hint@) == list_hints());
    hints
}

fn hints_of_input() -> (hints: Vec<Hint>)
    ensures
        hints@.map_values(|hint: Hint| hint@) == input_hints(),
{
    let mut hints: Vec<Hint> = Vec::new();
    hints.push(Hint { action: "Confirm", key: "enter" });
    hints.push(Hint { action: "Cancel", key: "esc" });
    assert(hints@.map_values(|hint: Hint| hint@) == input_hints());
    hints
}

fn lines_of_labels(labels: &Vec<String>) -> (lines: Vec<Line>)
    ensures
        lines@.map_values(|line: Line| line@) == label_lines(
            labels@.map_values(|label: String| label@),
        ),
{
    let mut lines: Vec<Line> = Vec::new();
    if labels.len() == 0 {
        lines.push(Line::Placeholder { notice: NO_LISTS });
        assert(lines@.map_values(|line: Line| line@) == label_lines(
            labels@.map_values(|label: String| label@),
        ));
        return lines;
    }
    let mut index: usize = 0;
    while index < labels.len()
        invariant
            index <= labels.len(),
            lines@.len() == index,
            forall|j: int| 0 <= j < index ==> lines@[j]@ == (LineView::Label { text: labels@[j]@ }),
        decreases labels.len() - index,
    {
        lines.push(Line::Label { text: labels[index].clone() });
        index += 1;
    }
    assert(lines@.map_values(|line: Line| line@) == label_lines(
        labels@.map_values(|label: String| label@),
    ));
    lines
}

fn lines_of_items(todo_list: &TodoList) -> (lines: Vec<Line>)
    ensures
        lines@.map_values(|line: Line| line@) == item_lines(todo_list@.items),
{
    let items = todo_list.items();
    let mut lines: Vec<Line> = Vec::new();
    if items.len() == 0 {
        lines.push(Line::Placeholder { notice: NO_ITEMS });
        assert(lines@.map_values(|line: Line| line@) == item_lines(todo_list@.items));
        return lines;
    }
    let mut index: usize = 0;
    while index < items.len()
        invariant
            index <= items@.len(),
            lines@.len() == index,
            forall|j: int| 0 <= j < index ==> lines@[j]@ == item_line(items@[j]),
        decreases items@.len() - index,
    {
        match items.at(index) {
            Some(item) => {
                let is_completed = item.is_completed();
                lines.push(
                    Line::Entry {
                        checkbox: if is_completed {
                            CHECKED
                        } else {
                            UNCHECKED
                        },
                        description: item.description().clone(),
                        is_completed,
                    },
                );
            },
            None => {},
        }
        index += 1;
    }
    assert(lines@.map_values(|line: Line| line@) == item_lines(todo_list@.items));
    lines
}

fn glyph_of(buffer: &TextBuffer) -> (glyph: char)
    ensures
        glyph == cursor_glyph(buffer@),
{
    if buffer.is_empty() {
        BLOCK_CURSOR
    } else {
        match buffer.under_cursor() {
            Some(c) => c,
            None => ' ',
        }
    }
}

/// What `state` shows.
///
/// The terminal states are never drawn: the driver stops before it would
/// draw one.
pub fn view(state: &State) -> (screen: Screen)
    requires
        !state@.is_terminal(),
    ensures
        screen@ == rendered(state@),
{
    match state {
        State::ListSelect { labels, selection, .. } => Screen::List {
            title: SELECT_TITLE.to_owned(),
            hints: hints_of_select(),
            lines: lines_of_labels(labels),
            selection: *selection,
        },
        State::ListView { todo_list, selection } => Screen::List {
            title: todo_list.title().clone(),
            hints: hints_of_list(),
            lines: lines_of_items(todo_list),
            selection: *selection,
        },
        State::TextInput { mode, buffer } => Screen::Modal {
            heading: match mode {
                TextInputMode::NewList => " Create New Todo List ",
                TextInputMode::NewItem { .. } => " Create New Item ",
                TextInputMode::EditItem { .. } => " Edit Item ",
            },
            hints: hints_of_input(),
            before: buffer.before(),
            cursor: glyph_of(buffer),
            after: buffer.after(),
            across: Shares::centered(MODAL_WIDTH),
            down: Shares::centered(MODAL_HEIGHT),
        },
        _ => Screen::Splash { text: SPLASH },
    }
}

} // verus!
