//! The single-line input editor: a buffer of Unicode scalar values and a
//! cursor counted in scalar values.
use vstd::prelude::*;
use crate::chars::string_of;

verus! {

/// What an editor holds: its buffer and the cursor position within it.
pub struct EditorView {
    pub buffer: Seq<char>,
    pub cursor: nat,
}

/// `e` after inserting `c` at the cursor: the cursor ends up past `c`.
pub open spec fn inserted(e: EditorView, c: char) -> EditorView {
    EditorView { buffer: e.buffer.insert(e.cursor as int, c), cursor: e.cursor + 1 }
}

/// `e` after removing the scalar value before the cursor, if there is one.
pub open spec fn deleted(e: EditorView) -> EditorView {
    if e.cursor == 0 {
        e
    } else {
        EditorView { buffer: e.buffer.remove(e.cursor - 1), cursor: (e.cursor - 1) as nat }
    }
}

/// `e` with the cursor one step to the left, if it is not at the start.
pub open spec fn moved_left(e: EditorView) -> EditorView {
    EditorView { buffer: e.buffer, cursor: if e.cursor > 0 { (e.cursor - 1) as nat } else { 0 } }
}

/// `e` with the cursor one step to the right, if it is not at the end.
pub open spec fn moved_right(e: EditorView) -> EditorView {
    EditorView {
        buffer: e.buffer,
        cursor: if e.cursor < e.buffer.len() { e.cursor + 1 } else { e.cursor },
    }
}

/// A one-line text buffer with a cursor that never leaves it.
pub struct Editor {
    buffer: Vec<char>,
    cursor: usize,
}

impl View for Editor {
    type V = EditorView;

    closed spec fn view(&self) -> EditorView {
        EditorView { buffer: self.buffer@, cursor: self.cursor as nat }
    }
}

impl Editor {
    /// The cursor lies within the buffer: `0 <= cursor <= length(buffer)`.
    pub open spec fn wf(&self) -> bool {
        self@.cursor <= self@.buffer.len()
    }

    /// An empty buffer with the cursor at its start.
    pub fn new() -> (e: Editor)
        ensures
            e.wf(),
            e@.buffer == Seq::<char>::empty(),
            e@.cursor == 0,
    {
        Editor { buffer: Vec::new(), cursor: 0 }
    }

    /// Inserts `c` at the cursor and moves the cursor past it.
    pub fn insert(&mut self, c: char)
        requires
            old(self).wf(),
        ensures
            final(self).wf(),
            final(self)@ == inserted(old(self)@, c),
    {
        self.buffer.insert(self.cursor, c);
        let n = self.buffer.len();
        assert(self.cursor < n);
        self.cursor = self.cursor + 1;
    }

    /// Removes the scalar value just before the cursor and moves the cursor
    /// back by one; does nothing with the cursor at the start.
    pub fn delete_before_cursor(&mut self)
        requires
            old(self).wf(),
        ensures
            final(self).wf(),
            final(self)@ == deleted(old(self)@),
    {
        if self.cursor != 0 {
            let at = self.cursor - 1;
            self.buffer.remove(at);
            self.cursor = at;
        }
    }

    /// Moves the cursor one scalar value to the left, stopping at the start.
    pub fn move_left(&mut self)
        requires
            old(self).wf(),
        ensures
            final(self).wf(),
            final(self)@ == moved_left(old(self)@),
    {
        if self.cursor > 0 {
            self.cursor = self.cursor - 1;
        }
    }

    /// Moves the cursor one scalar value to the right, stopping at the end.
    pub fn move_right(&mut self)
        requires
            old(self).wf(),
        ensures
            final(self).wf(),
            final(self)@ == moved_right(old(self)@),
    {
        if self.cursor < self.buffer.len() {
            self.cursor = self.cursor + 1;
        }
    }

    /// Empties the buffer and puts the cursor back at the start.
    pub fn clear(&mut self)
        ensures
            final(self).wf(),
            final(self)@.buffer == Seq::<char>::empty(),
            final(self)@.cursor == 0,
    {
        self.buffer.clear();
        self.cursor = 0;
    }

    /// The text in the buffer.
    pub fn snapshot(&self) -> (s: String)
        ensures
            s@ == self@.buffer,
    {
        string_of(&self.buffer)
    }

    /// The cursor position, in scalar values from the start of the buffer.
    pub fn cursor(&self) -> (n: usize)
        ensures
            n == self@.cursor,
    {
        self.cursor
    }

    /// The number of scalar values in the buffer.
    pub fn len(&self) -> (n: usize)
        ensures
            n == self@.buffer.len(),
    {
        self.buffer.len()
    }
}

} // verus!
