//! The line of text that a modal dialog edits.
//!
//! Positions count characters, not bytes: the cursor stands before the
//! character with its index, or behind the last one.

use vstd::prelude::*;
use vstd::string::StrSliceExecFns;

verus! {

/// Whether `c` has the Unicode property `White_Space`, as
/// `char::is_whitespace` tells it.
pub uninterp spec fn is_white_space(c: char) -> bool;

/// `char::is_whitespace` of the standard library, for which vstd has no
/// contract.
///
/// Trusted: that the answer depends on the character alone, so that it has
/// a name; and of single characters what the documentation of the function
/// shows: a space, a line feed and a no-break space are white space, `越`
/// is not. Which other characters are white space is not said here.
pub assume_specification[ char::is_whitespace ](c: char) -> (white: bool)
    ensures
        white == is_white_space(c),
        c == ' ' ==> white,
        c == '\n' ==> white,
        c == '\u{a0}' ==> white,
        c == '越' ==> !white,
;

/// `String::push` of the standard library, for which vstd has no contract.
///
/// Trusted: that the character is appended behind the text and the text
/// before it stays as it was.
pub assume_specification[ String::push ](text: &mut String, c: char)
    ensures
        final(text)@ == old(text)@.push(c),
;

/// The number of white-space characters at the front of `text`.
pub open spec fn leading_space(text: Seq<char>) -> int
    decreases text.len(),
{
    if text.len() > 0 && is_white_space(text.first()) {
        1 + leading_space(text.drop_first())
    } else {
        0
    }
}

/// The number of white-space characters at the back of `text`.
pub open spec fn trailing_space(text: Seq<char>) -> int
    decreases text.len(),
{
    if text.len() > 0 && is_white_space(text.last()) {
        1 + trailing_space(text.drop_last())
    } else {
        0
    }
}

/// `text` without the white space at its front and at its back.
pub open spec fn trimmed(text: Seq<char>) -> Seq<char> {
    if leading_space(text) == text.len() {
        Seq::empty()
    } else {
        text.subrange(leading_space(text), text.len() - trailing_space(text))
    }
}

/// Whether `text` is white space throughout, or empty.
pub open spec fn blank(text: Seq<char>) -> bool {
    forall|i: int| 0 <= i < text.len() ==> is_white_space(#[trigger] text[i])
}

/// The white space at the front ends at the first character that is none.
pub proof fn lemma_leading_space_is(text: Seq<char>, count: int)
    requires
        0 <= count <= text.len(),
        forall|i: int| 0 <= i < count ==> is_white_space(#[trigger] text[i]),
        count < text.len() ==> !is_white_space(text[count]),
    ensures
        leading_space(text) == count,
    decreases text.len(),
{
    if count > 0 {
        let rest = text.drop_first();
        assert(forall|i: int| 0 <= i < count - 1 ==> rest[i] == text[i + 1]);
        lemma_leading_space_is(rest, count - 1);
    }
}

/// The white space at the back begins behind the last character that is
/// none.
pub proof fn lemma_trailing_space_is(text: Seq<char>, count: int)
    requires
        0 <= count <= text.len(),
        forall|i: int| text.len() - count <= i < text.len() ==> is_white_space(#[trigger] text[i]),
        count < text.len() ==> !is_white_space(text[text.len() - count - 1]),
    ensures
        trailing_space(text) == count,
    decreases text.len(),
{
    if count > 0 {
        let rest = text.drop_last();
        assert(forall|i: int| 0 <= i < rest.len() ==> rest[i] == text[i]);
        lemma_trailing_space_is(rest, count - 1);
    }
}

/// Trimming leaves nothing exactly of a blank text.
pub proof fn lemma_trimmed_empty_iff_blank(text: Seq<char>)
    ensures
        trimmed(text).len() == 0 <==> blank(text),
        blank(text) <==> leading_space(text) == text.len(),
{
    lemma_space_counts(text);
    if blank(text) {
        lemma_leading_space_is(text, text.len() as int);
    }
}

/// The counts of white space at both ends lie within the text, cover only
/// white space, and do not overlap unless the text is blank.
pub proof fn lemma_space_counts(text: Seq<char>)
    ensures
        0 <= leading_space(text) <= text.len(),
        0 <= trailing_space(text) <= text.len(),
        forall|i: int| 0 <= i < leading_space(text) ==> is_white_space(#[trigger] text[i]),
        forall|i: int|
            text.len() - trailing_space(text) <= i < text.len() ==> is_white_space(
                #[trigger] text[i],
            ),
        leading_space(text) < text.len() ==> !is_white_space(text[leading_space(text)]),
        trailing_space(text) < text.len() ==> !is_white_space(
            text[text.len() - trailing_space(text) - 1],
        ),
        leading_space(text) < text.len() ==> leading_space(text) + trailing_space(text)
            < text.len(),
    decreases text.len(),
{
    if text.len() > 0 {
        let tail = text.drop_first();
        let front = text.drop_last();
        lemma_space_counts(tail);
        lemma_space_counts(front);
        assert(forall|i: int| 0 <= i < tail.len() ==> tail[i] == text[i + 1]);
        assert(forall|i: int| 0 <= i < front.len() ==> front[i] == text[i]);
        if is_white_space(text.first()) {
            assert forall|i: int| 0 <= i < leading_space(text) implies is_white_space(
                #[trigger] text[i],
            ) by {
                if i > 0 {
                    assert(text[i] == tail[i - 1]);
                }
            }
        }
    }
}

/// The characters of `text`, one by one.
fn chars_of(text: &str) -> (chars: Vec<char>)
    ensures
        chars@ == text@,
{
    let len = text.unicode_len();
    let mut chars: Vec<char> = Vec::new();
    let mut index: usize = 0;
    while index < len
        invariant
            index <= len,
            len == text@.len(),
            chars@ == text@.take(index as int),
        decreases len - index,
    {
        chars.push(text.get_char(index));
        index += 1;
        assert(chars@ == text@.take(index as int));
    }
    assert(text@.take(len as int) == text@);
    chars
}

/// The characters of `chars` from `from` up to `to` as a string.
fn string_of(chars: &Vec<char>, from: usize, to: usize) -> (text: String)
    requires
        from <= to <= chars@.len(),
    ensures
        text@ == chars@.subrange(from as int, to as int),
{
    let mut text = String::new();
    let mut index: usize = from;
    while index < to
        invariant
            from <= index <= to <= chars@.len(),
            text@ == chars@.subrange(from as int, index as int),
        decreases to - index,
    {
        text.push(chars[index]);
        index += 1;
        assert(text@ == chars@.subrange(from as int, index as int));
    }
    text
}

/// A line of text and the place of the cursor in it.
#[derive(Debug, PartialEq, Eq, Hash)]
pub struct TextBuffer {
    chars: Vec<char>,
    cursor: usize,
}

/// The mathematical content of a [`TextBuffer`].
pub struct TextBufferView {
    pub text: Seq<char>,
    /// The number of characters before the cursor.
    pub cursor: int,
}

impl View for TextBuffer {
    type V = TextBufferView;

    closed spec fn view(&self) -> TextBufferView {
        TextBufferView { text: self.chars@, cursor: self.cursor as int }
    }
}

impl TextBufferView {
    /// What holds of every buffer: the cursor stands within the text or
    /// right behind it.
    pub open spec fn wf(self) -> bool {
        0 <= self.cursor <= self.text.len()
    }

    /// No text, the cursor at the start.
    pub open spec fn empty() -> TextBufferView {
        TextBufferView { text: Seq::empty(), cursor: 0 }
    }

    /// `text` with the cursor behind it.
    pub open spec fn holding(text: Seq<char>) -> TextBufferView {
        TextBufferView { text, cursor: text.len() as int }
    }

    /// After typing `c`: it stands where the cursor was, the cursor behind
    /// it.
    pub open spec fn inserted(self, c: char) -> TextBufferView {
        TextBufferView { text: self.text.insert(self.cursor, c), cursor: self.cursor + 1 }
    }

    /// After a backspace: the character before the cursor is gone and the
    /// cursor has moved into its place. At the start nothing changes.
    pub open spec fn backspaced(self) -> TextBufferView {
        if self.cursor > 0 {
            TextBufferView { text: self.text.remove(self.cursor - 1), cursor: self.cursor - 1 }
        } else {
            self
        }
    }

    /// After a delete: the character at the cursor is gone. At the end
    /// nothing changes.
    pub open spec fn deleted(self) -> TextBufferView {
        if self.cursor < self.text.len() {
            TextBufferView { text: self.text.remove(self.cursor), ..self }
        } else {
            self
        }
    }

    /// The cursor one character to the left, unless it is at the start.
    pub open spec fn moved_left(self) -> TextBufferView {
        if self.cursor > 0 {
            TextBufferView { cursor: self.cursor - 1, ..self }
        } else {
            self
        }
    }

    /// The cursor one character to the right, unless it is at the end.
    pub open spec fn moved_right(self) -> TextBufferView {
        if self.cursor < self.text.len() {
            TextBufferView { cursor: self.cursor + 1, ..self }
        } else {
            self
        }
    }

    /// The text before the cursor.
    pub open spec fn before(self) -> Seq<char> {
        self.text.subrange(0, self.cursor)
    }

    /// The character that the cursor stands on, if it stands on one.
    pub open spec fn under_cursor(self) -> Option<char> {
        if self.cursor < self.text.len() {
            Some(self.text[self.cursor])
        } else {
            None
        }
    }

    /// The text behind the character that the cursor stands on.
    pub open spec fn after(self) -> Seq<char> {
        if self.cursor < self.text.len() {
            self.text.subrange(self.cursor + 1, self.text.len() as int)
        } else {
            Seq::empty()
        }
    }
}

impl Clone for TextBuffer {
    fn clone(&self) -> (copy: TextBuffer)
        ensures
            copy@ == self@,
    {
        proof {
            use_type_invariant(self);
        }
        TextBuffer { chars: self.chars.clone(), cursor: self.cursor }
    }
}

impl TextBuffer {
    #[verifier::type_invariant]
    spec fn cursor_within(self) -> bool {
        self.cursor <= self.chars@.len()
    }

    /// An empty buffer.
    pub fn new() -> (buffer: TextBuffer)
        ensures
            buffer@ == TextBufferView::empty(),
    {
        TextBuffer { chars: Vec::new(), cursor: 0 }
    }

    /// A buffer that holds `text`, with the cursor behind it.
    pub fn from_text(text: &str) -> (buffer: TextBuffer)
        ensures
            buffer@ == TextBufferView::holding(text@),
    {
        let chars = chars_of(text);
        let cursor = chars.len();
        TextBuffer { chars, cursor }
    }

    /// The text.
    pub fn text(&self) -> (text: String)
        ensures
            text@ == self@.text,
            self@.wf(),
    {
        proof {
            use_type_invariant(self);
        }
        let text = string_of(&self.chars, 0, self.chars.len());
        assert(self.chars@.subrange(0, self.chars@.len() as int) == self.chars@);
        text
    }

    /// The number of characters before the cursor.
    pub fn cursor(&self) -> (cursor: usize)
        ensures
            cursor == self@.cursor,
            self@.wf(),
    {
        proof {
            use_type_invariant(self);
        }
        self.cursor
    }

    /// The number of characters.
    pub fn len(&self) -> (len: usize)
        ensures
            len == self@.text.len(),
    {
        self.chars.len()
    }

    pub fn is_empty(&self) -> (empty: bool)
        ensures
            empty == (self@.text.len() == 0),
    {
        self.chars.len() == 0
    }

    /// Types `c` at the cursor.
    pub fn insert(&mut self, c: char)
        ensures
            final(self)@ == old(self)@.inserted(c),
    {
        proof {
            use_type_invariant(&*self);
        }
        let cursor = self.cursor;
        self.cursor = 0;
        let mut chars: Vec<char> = Vec::new();
        core::mem::swap(&mut self.chars, &mut chars);
        chars.insert(cursor, c);
        let moved = if cursor < chars.len() {
            cursor + 1
        } else {
            cursor
        };
        self.chars = chars;
        self.cursor = moved;
    }

    /// Removes the character before the cursor.
    pub fn backspace(&mut self)
        ensures
            final(self)@ == old(self)@.backspaced(),
    {
        proof {
            use_type_invariant(&*self);
        }
        if self.cursor > 0 {
            let cursor = self.cursor - 1;
            self.cursor = 0;
            let mut chars: Vec<char> = Vec::new();
            core::mem::swap(&mut self.chars, &mut chars);
            chars.remove(cursor);
            self.chars = chars;
            self.cursor = cursor;
        }
    }

    /// Removes the character at the cursor.
    pub fn delete(&mut self)
        ensures
            final(self)@ == old(self)@.deleted(),
    {
        proof {
            use_type_invariant(&*self);
        }
        if self.cursor < self.chars.len() {
            let cursor = self.cursor;
            let mut chars: Vec<char> = Vec::new();
            self.cursor = 0;
            core::mem::swap(&mut self.chars, &mut chars);
            chars.remove(cursor);
            self.chars = chars;
            self.cursor = cursor;
        }
    }

    /// Moves the cursor one character to the left.
    pub fn move_left(&mut self)
        ensures
            final(self)@ == old(self)@.moved_left(),
    {
        proof {
            use_type_invariant(&*self);
        }
        if self.cursor > 0 {
            self.cursor = self.cursor - 1;
        }
    }

    /// Moves the cursor one character to the right.
    pub fn move_right(&mut self)
        ensures
            final(self)@ == old(self)@.moved_right(),
    {
        proof {
            use_type_invariant(&*self);
        }
        if self.cursor < self.chars.len() {
            self.cursor = self.cursor + 1;
        }
    }

    /// The text without the white space at its front and at its back.
    pub fn trimmed(&self) -> (text: String)
        ensures
            text@ == trimmed(self@.text),
    {
        let len = self.chars.len();
        let mut start: usize = 0;
        while start < len && self.chars[start].is_whitespace()
            invariant
                start <= len,
                len == self.chars@.len(),
                forall|i: int| 0 <= i < start ==> is_white_space(#[trigger] self.chars@[i]),
            decreases len - start,
        {
            start += 1;
        }
        proof {
            lemma_leading_space_is(self.chars@, start as int);
        }
        if start == len {
            return String::new();
        }
        let mut end: usize = len;
        while end > start && self.chars[end - 1].is_whitespace()
            invariant
                start <= end <= len,
                len == self.chars@.len(),
                forall|i: int| end <= i < len ==> is_white_space(#[trigger] self.chars@[i]),
            decreases end,
        {
            end -= 1;
        }
        proof {
            lemma_trailing_space_is(self.chars@, len - end);
        }
        string_of(&self.chars, start, end)
    }

    /// The text before the cursor.
    pub fn before(&self) -> (text: String)
        ensures
            text@ == self@.before(),
    {
        proof {
            use_type_invariant(self);
        }
        string_of(&self.chars, 0, self.cursor)
    }

    /// The character that the cursor stands on; none at the end.
    pub fn under_cursor(&self) -> (c: Option<char>)
        ensures
            c == self@.under_cursor(),
    {
        if self.cursor < self.chars.len() {
            Some(self.chars[self.cursor])
        } else {
            None
        }
    }

    /// The text behind the character that the cursor stands on.
    pub fn after(&self) -> (text: String)
        ensures
            text@ == self@.after(),
    {
        if self.cursor < self.chars.len() {
            string_of(&self.chars, self.cursor + 1, self.chars.len())
        } else {
            String::new()
        }
    }
}

} // verus!
