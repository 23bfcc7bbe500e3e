use vstd::prelude::*;
use crate::text::{chars_of, text_of};

verus! {

/// The command line being edited, with its cursor and the lines entered before.
pub struct InputField {
    pub content: String,
    /// Cursor position, in characters.
    pub cursor_position: usize,
    pub content_history: Vec<String>,
    /// Position in the history; its length when no earlier line is shown.
    pub history_position: usize,
}

/// `f` is `o` with the cursor one character further left, if it can go.
pub open spec fn moved_left(o: InputField, f: InputField) -> bool {
    f == (InputField {
        cursor_position: if o.cursor_position > 0 {
            (o.cursor_position - 1) as usize
        } else {
            0
        },
        ..o
    })
}

/// `f` is `o` with the cursor one character further right, up to the end of the line.
pub open spec fn moved_right(o: InputField, f: InputField) -> bool {
    f == (InputField {
        cursor_position: if o.cursor_position < o.content@.len() {
            (o.cursor_position + 1) as usize
        } else {
            o.cursor_position
        },
        ..o
    })
}

/// `f` shows the history line before the one `o` shows, with the cursor at its end;
/// nothing changes at the oldest line.
pub open spec fn history_up(o: InputField, f: InputField) -> bool {
    let p = o.history_position;
    if p == 0 || p > o.content_history@.len() {
        f == o
    } else {
        &&& f.content@ == o.content_history@[p - 1]@
        &&& f.cursor_position == f.content@.len()
        &&& f.history_position == p - 1
        &&& f.content_history == o.content_history
    }
}

/// `f` shows the history line after the one `o` shows; past the newest, an empty line.
pub open spec fn history_down(o: InputField, f: InputField) -> bool {
    let p = o.history_position;
    let n = o.content_history@.len();
    &&& f.content_history == o.content_history
    &&& if p + 1 >= n {
        &&& f.content@.len() == 0
        &&& f.cursor_position == 0
        &&& f.history_position == n
    } else {
        &&& f.content@ == o.content_history@[p + 1]@
        &&& f.cursor_position == f.content@.len()
        &&& f.history_position == p + 1
    }
}

/// `f` is `o` with `c` inserted at the cursor (at the end when the cursor is past it)
/// and the cursor moved right.
pub open spec fn inserted(o: InputField, f: InputField, c: char) -> bool {
    let pos = if o.cursor_position < o.content@.len() {
        o.cursor_position as int
    } else {
        o.content@.len() as int
    };
    &&& f.content@ == o.content@.insert(pos, c)
    &&& f.cursor_position == if o.cursor_position < f.content@.len() {
        o.cursor_position + 1
    } else {
        o.cursor_position as int
    }
    &&& f.content_history == o.content_history
    &&& f.history_position == o.history_position
}

/// `f` is `o` with the character before the cursor deleted and the cursor moved left;
/// when the cursor is past the end of the line, the first character goes.
pub open spec fn deleted(o: InputField, f: InputField) -> bool {
    let n = o.content@.len();
    let p = o.cursor_position;
    &&& f.content_history == o.content_history
    &&& f.history_position == o.history_position
    &&& if p == 0 {
        f == o
    } else {
        &&& f.cursor_position == p - 1
        &&& f.content@ == if n == 0 {
            o.content@
        } else if p - 1 < n {
            o.content@.remove(p - 1)
        } else {
            o.content@.remove(0)
        }
    }
}

impl Default for InputField {
    fn default() -> (r: Self)
        ensures
            r.content@.len() == 0,
            r.cursor_position == 0,
            r.content_history@.len() == 0,
            r.history_position == 0,
    {
        Self::new()
    }
}

impl InputField {
    /// An empty line with no history.
    pub fn new() -> (r: Self)
        ensures
            r.content@.len() == 0,
            r.cursor_position == 0,
            r.content_history@.len() == 0,
            r.history_position == 0,
    {
        InputField { content: String::new(), cursor_position: 0, content_history: Vec::new(), history_position: 0 }
    }

    /// Moves the cursor one character to the left, if it can.
    pub fn move_cursor_left(&mut self)
        ensures
            moved_left(*old(self), *final(self)),
    {
        if self.cursor_position > 0 {
            self.cursor_position = self.cursor_position - 1;
        }
    }

    /// Moves the cursor one character to the right, up to the end of the line.
    pub fn move_cursor_right(&mut self)
        ensures
            moved_right(*old(self), *final(self)),
    {
        if self.cursor_position < chars_of(self.content.as_str()).len() {
            self.cursor_position = self.cursor_position + 1;
        }
    }

    /// Shows the line entered before the one shown, with the cursor at its end; nothing
    /// happens at the oldest line.
    pub fn move_history_up(&mut self)
        ensures
            history_up(*old(self), *final(self)),
    {
        if self.history_position == 0 || self.history_position > self.content_history.len() {
            return;
        }
        self.history_position = self.history_position - 1;
        self.content = self.content_history[self.history_position].clone();
        self.cursor_position = chars_of(self.content.as_str()).len();
    }

    /// Shows the line entered after the one shown; past the newest line, an empty line.
    pub fn move_history_down(&mut self)
        ensures
            history_down(*old(self), *final(self)),
    {
        if self.history_position >= self.content_history.len() || self.history_position + 1
            >= self.content_history.len() {
            self.content = String::new();
            self.cursor_position = 0;
            self.history_position = self.content_history.len();
            return;
        }
        self.history_position = self.history_position + 1;
        self.content = self.content_history[self.history_position].clone();
        self.cursor_position = chars_of(self.content.as_str()).len();
    }

    /// Inserts `c` at the cursor (at the end when the cursor is past it) and moves the
    /// cursor right.
    pub fn insert_char(&mut self, c: char)
        requires
            old(self).content@.len() < usize::MAX,
        ensures
            inserted(*old(self), *final(self), c),
    {
        let mut v = chars_of(self.content.as_str());
        let pos = if self.cursor_position < v.len() {
            self.cursor_position
        } else {
            v.len()
        };
        v.insert(pos, c);
        self.content = text_of(&v);
        self.move_cursor_right();
    }

    /// Deletes the character before the cursor and moves the cursor left; when the
    /// cursor is past the end of the line, the first character goes.
    pub fn delete_char(&mut self)
        ensures
            deleted(*old(self), *final(self)),
    {
        if self.cursor_position > 0 {
            let mut v = chars_of(self.content.as_str());
            if v.len() > 0 {
                let pos = if self.cursor_position - 1 < v.len() {
                    self.cursor_position - 1
                } else {
                    0
                };
                v.remove(pos);
                self.content = text_of(&v);
            }
            self.move_cursor_left();
        }
    }
}

} // verus!
