//! The selection cursor of a list on screen.

use vstd::prelude::*;

verus! {

/// Which entry of a list is selected, if any, and from which entry on the
/// list is shown.
#[derive(Debug, Clone, Copy, PartialEq, Eq, Hash, Structural)]
pub struct Selection {
    /// The selected entry, counted from zero.
    pub selected: Option<usize>,
    /// The first entry that is visible.
    pub offset: usize,
}

impl Default for Selection {
    /// Nothing selected, at the top.
    fn default() -> (selection: Selection)
        ensures
            selection == (Selection { selected: None, offset: 0 }),
    {
        Selection { selected: None, offset: 0 }
    }
}

impl Selection {
    /// This selection with `index` selected. Selecting nothing also scrolls
    /// back to the top.
    pub open spec fn select(self, index: Option<usize>) -> Selection {
        Selection {
            selected: index,
            offset: if index is None {
                0
            } else {
                self.offset
            },
        }
    }

    /// This selection moved one entry down a list of `len` entries: to the
    /// first entry if none was selected, and never beyond the last. On an
    /// empty list nothing is selected.
    pub open spec fn next(self, len: int) -> Selection {
        self.select(
            match self.selected {
                None => Some(0usize),
                Some(index) => Some(
                    if index < usize::MAX {
                        (index + 1) as usize
                    } else {
                        index
                    },
                ),
            },
        ).clamped(len)
    }

    /// This selection moved one entry up a list of `len` entries: to the
    /// last entry if none was selected, and never above the first. On an
    /// empty list nothing is selected.
    pub open spec fn previous(self, len: int) -> Selection {
        self.select(
            match self.selected {
                None => Some(usize::MAX),
                Some(index) => Some(
                    if index > 0 {
                        (index - 1) as usize
                    } else {
                        index
                    },
                ),
            },
        ).clamped(len)
    }

    /// This selection held to a list of `len` entries: nothing is selected
    /// on an empty list, and a selection beyond the end moves to the last
    /// entry.
    pub open spec fn clamped(self, len: int) -> Selection {
        if len == 0 {
            self.select(None)
        } else {
            match self.selected {
                Some(index) if index >= len => self.select(Some((len - 1) as usize)),
                _ => self,
            }
        }
    }

    /// Whether the selected entry, if there is one, lies within a list of
    /// `len` entries.
    pub open spec fn within(self, len: int) -> bool {
        match self.selected {
            Some(index) => index < len,
            None => true,
        }
    }

    /// Nothing selected, at the top.
    pub fn new() -> (selection: Selection)
        ensures
            selection == (Selection { selected: None, offset: 0 }),
    {
        Selection { selected: None, offset: 0 }
    }

    /// The selected entry.
    pub fn selected(&self) -> (selected: Option<usize>)
        ensures
            selected == self.selected,
    {
        self.selected
    }

    /// Holds the selection to a list of `len` entries.
    pub fn clamp(&mut self, len: usize)
        ensures
            *final(self) == old(self).clamped(len as int),
            final(self).within(len as int),
    {
        if len == 0 {
            self.selected = None;
            self.offset = 0;
        } else {
            match self.selected {
                Some(index) => {
                    if index >= len {
                        self.selected = Some(len - 1);
                    }
                },
                None => {},
            }
        }
    }

    /// Moves the selection one entry down a list of `len` entries.
    pub fn select_next(&mut self, len: usize)
        ensures
            *final(self) == old(self).next(len as int),
            final(self).within(len as int),
    {
        self.selected = Some(
            match self.selected {
                None => 0,
                Some(index) => index.saturating_add(1),
            },
        );
        self.clamp(len);
    }

    /// Moves the selection one entry up a list of `len` entries.
    pub fn select_previous(&mut self, len: usize)
        ensures
            *final(self) == old(self).previous(len as int),
            final(self).within(len as int),
    {
        self.selected = Some(
            match self.selected {
                None => usize::MAX,
                Some(index) => index.saturating_sub(1),
            },
        );
        self.clamp(len);
    }
}

/// Moving up from the first entry, or on an empty list, does not move: the
/// first entry stays selected, and on an empty list nothing is.
pub proof fn lemma_previous_at_top(selection: Selection, len: int)
    requires
        0 <= len,
        selection.selected == Some(0usize) || len == 0,
    ensures
        len > 0 ==> selection.previous(len) == selection,
        len == 0 ==> selection.previous(len).selected is None,
{
}

/// Moving down from the last entry does not move.
pub proof fn lemma_next_at_bottom(selection: Selection, len: int)
    requires
        0 < len <= usize::MAX,
        selection.selected == Some((len - 1) as usize),
    ensures
        selection.next(len) == selection,
{
}

} // verus!
