//! The one-line answer box: its text and the cursor in it.
use vstd::prelude::*;
use vstd::string::*;
use crate::text::same_text;

verus! {

/// The answer box. The cursor is an index between two characters of the
/// text: it never exceeds the number of characters.
pub struct TextBox {
    text: String,
    cursor: usize,
    movement: bool,
}

/// What an answer box holds.
pub struct TextBoxView {
    /// The characters typed so far.
    pub text: Seq<char>,
    /// The number of characters to the left of the cursor.
    pub cursor: nat,
    /// Whether the arrow keys move the cursor.
    pub movement: bool,
}

/// `v` with `s` put in at the cursor, the cursor behind it.
pub open spec fn inserted(v: TextBoxView, s: Seq<char>) -> TextBoxView {
    TextBoxView {
        text: v.text.subrange(0, v.cursor as int) + s + v.text.subrange(
            v.cursor as int,
            v.text.len() as int,
        ),
        cursor: v.cursor + s.len(),
        movement: v.movement,
    }
}

/// `v` without the character to the left of the cursor, if there is one.
pub open spec fn erased(v: TextBoxView) -> TextBoxView {
    if v.cursor > 0 {
        TextBoxView {
            text: v.text.remove(v.cursor - 1),
            cursor: (v.cursor - 1) as nat,
            movement: v.movement,
        }
    } else {
        v
    }
}

/// `v` with the cursor one place to the left, if movement is allowed and
/// the cursor is not at the start.
pub open spec fn moved_left(v: TextBoxView) -> TextBoxView {
    if v.movement && v.cursor > 0 {
        TextBoxView { cursor: (v.cursor - 1) as nat, ..v }
    } else {
        v
    }
}

/// `v` with the cursor one place to the right, if movement is allowed and
/// the cursor is not at the end.
pub open spec fn moved_right(v: TextBoxView) -> TextBoxView {
    if v.movement && v.cursor < v.text.len() {
        TextBoxView { cursor: v.cursor + 1, ..v }
    } else {
        v
    }
}

/// `v` after the key `key` went down: the two horizontal arrows move the
/// cursor, `Backspace` erases, a key of one character is typed, and every
/// other key is ignored.
pub open spec fn after_key(v: TextBoxView, key: Seq<char>) -> TextBoxView {
    if key == "ArrowRight"@ {
        moved_right(v)
    } else if key == "ArrowLeft"@ {
        moved_left(v)
    } else if key == "Backspace"@ {
        erased(v)
    } else if key.len() == 1 {
        inserted(v, key)
    } else {
        v
    }
}

/// No key takes the cursor out of the text: if it lies within the text
/// before a key, it does so after it.
pub proof fn lemma_cursor_stays_in_text(v: TextBoxView, key: Seq<char>)
    requires
        v.cursor <= v.text.len(),
    ensures
        after_key(v, key).cursor <= after_key(v, key).text.len(),
        inserted(v, key).cursor <= inserted(v, key).text.len(),
        erased(v).cursor <= erased(v).text.len(),
        moved_left(v).cursor <= moved_left(v).text.len(),
        moved_right(v).cursor <= moved_right(v).text.len(),
{
}

impl View for TextBox {
    type V = TextBoxView;

    closed spec fn view(&self) -> TextBoxView {
        TextBoxView { text: self.text@, cursor: self.cursor as nat, movement: self.movement }
    }
}

impl TextBox {
    #[verifier::type_invariant]
    spec fn cursor_in_text(self) -> bool {
        self.cursor <= self.text@.len()
    }

    /// An empty box with the cursor at the start and movement allowed.
    pub fn new() -> (t: Self)
        ensures
            t@ == (TextBoxView { text: Seq::empty(), cursor: 0, movement: true }),
    {
        TextBox { text: String::new(), cursor: 0, movement: true }
    }

    /// The text typed so far.
    pub fn text(&self) -> (r: &String)
        ensures
            r@ == self@.text,
    {
        &self.text
    }

    /// The place of the cursor, which lies within the text.
    pub fn cursor(&self) -> (r: usize)
        ensures
            r == self@.cursor,
            r <= self@.text.len(),
    {
        proof {
            use_type_invariant(self);
        }
        self.cursor
    }

    /// Whether the arrow keys move the cursor.
    pub fn movement(&self) -> (r: bool)
        ensures
            r == self@.movement,
    {
        self.movement
    }

    /// Allows or forbids the arrow keys to move the cursor.
    pub fn set_movement(&mut self, allowed: bool)
        ensures
            final(self)@ == (TextBoxView { movement: allowed, ..old(self)@ }),
            final(self)@.cursor <= final(self)@.text.len(),
    {
        proof {
            use_type_invariant(&*self);
        }
        self.movement = allowed;
    }

    /// Puts `s` in at the cursor and moves the cursor behind it.
    pub fn insert(&mut self, s: &str)
        ensures
            final(self)@ == inserted(old(self)@, s@),
            final(self)@.cursor <= final(self)@.text.len(),
    {
        proof {
            use_type_invariant(&*self);
        }
        let len: usize = self.text.as_str().unicode_len();
        let head = self.text.as_str().substring_char(0, self.cursor);
        let tail = self.text.as_str().substring_char(self.cursor, len);
        let mut text = String::from_str(head);
        text.append(s);
        text.append(tail);
        let total: usize = text.as_str().unicode_len();
        let behind: usize = len - self.cursor;
        self.text = text;
        self.cursor = total - behind;
    }

    /// Removes the character to the left of the cursor, if there is one.
    pub fn backspace(&mut self)
        ensures
            final(self)@ == erased(old(self)@),
            final(self)@.cursor <= final(self)@.text.len(),
    {
        proof {
            use_type_invariant(&*self);
        }
        if self.cursor != 0 {
            let len: usize = self.text.as_str().unicode_len();
            let head = self.text.as_str().substring_char(0, self.cursor - 1);
            let tail = self.text.as_str().substring_char(self.cursor, len);
            let mut text = String::from_str(head);
            text.append(tail);
            self.cursor = self.cursor - 1;
            self.text = text;
        }
    }

    /// Moves the cursor one place to the left, if movement is allowed.
    pub fn left(&mut self)
        ensures
            final(self)@ == moved_left(old(self)@),
            final(self)@.cursor <= final(self)@.text.len(),
    {
        proof {
            use_type_invariant(&*self);
        }
        if self.movement {
            if self.cursor > 0 {
                self.cursor = self.cursor - 1;
            }
        }
    }

    /// Moves the cursor one place to the right, if movement is allowed.
    pub fn right(&mut self)
        ensures
            final(self)@ == moved_right(old(self)@),
            final(self)@.cursor <= final(self)@.text.len(),
    {
        proof {
            use_type_invariant(&*self);
        }
        if self.movement {
            let len: usize = self.text.as_str().unicode_len();
            if len <= self.cursor {
                self.cursor = len;
            } else {
                self.cursor = self.cursor + 1;
            }
        }
    }

    /// Handles a key that went down.
    pub fn down(&mut self, key: &str)
        ensures
            final(self)@ == after_key(old(self)@, key@),
            final(self)@.cursor <= final(self)@.text.len(),
    {
        proof {
            use_type_invariant(&*self);
        }
        if same_text(key, "ArrowRight") {
            self.right();
        } else if same_text(key, "ArrowLeft") {
            self.left();
        } else if same_text(key, "Backspace") {
            self.backspace();
        } else if key.unicode_len() == 1 {
            self.insert(key);
        }
    }

    /// Handles a key that came up: the box ignores it.
    pub fn up(&mut self, key: &str)
        ensures
            final(self)@ == old(self)@,
    {
    }
}

} // verus!
