//! The inline text editor used while renaming an entry: a line of text and
//! a cursor offset into it, with character insertion, backward deletion and
//! cursor movement. The text is held as a vector of characters so that the
//! cursor always sits on a character boundary.

use vstd::prelude::*;
use vstd::string::StrSliceExecFns;

verus! {

/// Turns a character vector back into a `String`.
///
/// Relies on `core::iter::Iterator::collect` building a `String` from
/// exactly the characters the iterator yields, in order.
#[verifier::external_body]
fn chars_to_string(v: &Vec<char>) -> (r: String)
    ensures
        r@ == v@,
{
    v.iter().collect()
}

/// Copies a string slice into a character vector.
fn str_to_chars(s: &str) -> (r: Vec<char>)
    ensures
        r@ == s@,
{
    let n = s.unicode_len();
    let mut out: Vec<char> = Vec::new();
    let mut i: usize = 0;
    while i < n
        invariant
            n == s@.len(),
            i <= n,
            out@ == s@.subrange(0, i as int),
        decreases n - i,
    {
        out.push(s.get_char(i));
        assert(out@ =~= s@.subrange(0, i + 1));
        i = i + 1;
    }
    assert(out@ =~= s@);
    out
}

/// An in-progress line edit: the text typed so far and the cursor offset.
#[derive(Clone, Debug, PartialEq, Eq)]
pub struct Input {
    /// The text, one element per character.
    pub text: Vec<char>,
    /// The cursor offset in characters; insertion happens here.
    pub cursor: usize,
}

/// `c` was typed: it now sits where the cursor stood, and the cursor sits
/// just past it.
pub open spec fn inserted(pre: Input, post: Input, c: char) -> bool {
    &&& post.text@ == pre.text@.insert(pre.cursor as int, c)
    &&& post.cursor == pre.cursor + 1
}

/// Backspace was typed: the character before the cursor is gone and the
/// cursor moved back over it; at the start of the line nothing happened.
pub open spec fn deleted_back(pre: Input, post: Input) -> bool {
    if pre.cursor == 0 {
        post == pre
    } else {
        &&& post.text@ == pre.text@.remove(pre.cursor - 1)
        &&& post.cursor == pre.cursor - 1
    }
}

/// The cursor moved one character left, stopping at the start.
pub open spec fn moved_left(pre: Input, post: Input) -> bool {
    &&& post.text == pre.text
    &&& post.cursor == if pre.cursor > 0 {
        (pre.cursor - 1) as usize
    } else {
        0usize
    }
}

/// The cursor moved one character right, stopping at the end.
pub open spec fn moved_right(pre: Input, post: Input) -> bool {
    &&& post.text == pre.text
    &&& post.cursor as int == if pre.cursor < pre.text@.len() {
        pre.cursor + 1
    } else {
        pre.cursor as int
    }
}

impl Input {
    /// The cursor never points past the end of the text.
    pub open spec fn wf(self) -> bool {
        self.cursor <= self.text@.len()
    }

    /// An empty line with the cursor at the start.
    pub fn new() -> (r: Input)
        ensures
            r.text@ == Seq::<char>::empty(),
            r.cursor == 0,
            r.wf(),
    {
        Input { text: Vec::new(), cursor: 0 }
    }

    /// The editor pre-filled with `value`, cursor at the end of it.
    pub fn with_value(value: &str) -> (r: Input)
        ensures
            r.text@ == value@,
            r.cursor == value@.len(),
            r.wf(),
    {
        let text = str_to_chars(value);
        let cursor = text.len();
        Input { text, cursor }
    }

    /// The current text as a `String`.
    pub fn value(&self) -> (r: String)
        ensures
            r@ == self.text@,
    {
        chars_to_string(&self.text)
    }

    /// The cursor offset in characters.
    pub fn cursor(&self) -> (r: usize)
        ensures
            r == self.cursor,
    {
        self.cursor
    }

    /// Inserts `c` at the cursor and moves the cursor past it.
    pub fn insert_char(&mut self, c: char)
        requires
            old(self).wf(),
        ensures
            inserted(*old(self), *final(self), c),
            final(self).wf(),
    {
        self.text.insert(self.cursor, c);
        let n = self.text.len();
        assert(self.cursor < n);
        self.cursor = self.cursor + 1;
    }

    /// Deletes the character before the cursor, if any, and moves the
    /// cursor back over it; at the start of the line it does nothing.
    pub fn delete_back(&mut self)
        requires
            old(self).wf(),
        ensures
            deleted_back(*old(self), *final(self)),
            final(self).wf(),
    {
        if self.cursor > 0 {
            self.text.remove(self.cursor - 1);
            self.cursor = self.cursor - 1;
        }
    }

    /// Moves the cursor one character left; at the start it stays put.
    pub fn cursor_left(&mut self)
        ensures
            moved_left(*old(self), *final(self)),
    {
        if self.cursor > 0 {
            self.cursor = self.cursor - 1;
        }
    }

    /// Moves the cursor one character right; at the end it stays put.
    pub fn cursor_right(&mut self)
        requires
            old(self).wf(),
        ensures
            moved_right(*old(self), *final(self)),
            final(self).wf(),
    {
        if self.cursor < self.text.len() {
            self.cursor = self.cursor + 1;
        }
    }
}

impl Default for Input {
    /// An empty line with the cursor at the start.
    fn default() -> (r: Input)
        ensures
            r.text@ == Seq::<char>::empty(),
            r.cursor == 0,
    {
        Input::new()
    }
}

} // verus!
