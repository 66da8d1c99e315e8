//! The search tab: a line of text with a cursor.

use vstd::prelude::*;
use vstd::string::{StrSliceExecFns, StringExecFns, StringSliceAdditionalSpecFns};
use vstd::utf8::encode_utf8;
use crate::text::push_char;

verus! {

/// A line of input and the cursor in it. The cursor counts characters, not
/// bytes, and never stands beyond the end of the text.
#[derive(Debug)]
pub struct SearchTab {
    input: String,
    character_index: usize,
    input_mode: InputMode,
}

#[derive(Debug, Clone, Copy, PartialEq, Eq, Structural)]
pub enum InputMode {
    Normal,
    Editing,
}

impl SearchTab {
    #[verifier::type_invariant]
    spec fn inv(self) -> bool {
        self.character_index <= self.input@.len()
    }

    /// The text.
    pub closed spec fn text(&self) -> Seq<char> {
        self.input@
    }

    /// The cursor: the number of characters to its left.
    pub closed spec fn cursor(&self) -> nat {
        self.character_index as nat
    }

    pub closed spec fn mode(&self) -> InputMode {
        self.input_mode
    }

    /// An empty line with the cursor at its start.
    pub fn new() -> (tab: SearchTab)
        ensures
            tab.text() == Seq::<char>::empty(),
            tab.cursor() == 0,
            tab.mode() == InputMode::Normal,
    {
        SearchTab { input: String::new(), character_index: 0, input_mode: InputMode::Normal }
    }

    /// The text.
    pub fn input(&self) -> (s: &str)
        ensures
            s@ == self.text(),
    {
        self.input.as_str()
    }

    /// The cursor. It is never beyond the end of the text.
    pub fn character_index(&self) -> (i: usize)
        ensures
            i == self.cursor(),
            i <= self.text().len(),
    {
        proof {
            use_type_invariant(self);
        }
        self.character_index
    }

    pub fn input_mode(&self) -> (m: InputMode)
        ensures
            m == self.mode(),
    {
        self.input_mode
    }

    /// Move the cursor to the left. At the start of the line it stays.
    pub fn move_cursor_left(&mut self)
        ensures
            final(self).text() == old(self).text(),
            final(self).mode() == old(self).mode(),
            final(self).cursor() == (if old(self).cursor() == 0 {
                0
            } else {
                old(self).cursor() - 1
            }),
    {
        proof {
            use_type_invariant(&*self);
        }
        let cursor_moved_left = if self.character_index == 0 {
            0
        } else {
            self.character_index - 1
        };
        self.character_index = self.clamp_cursor(cursor_moved_left);
    }

    /// Move the cursor to the right. At the end of the line it stays.
    pub fn move_cursor_right(&mut self)
        ensures
            final(self).text() == old(self).text(),
            final(self).mode() == old(self).mode(),
            final(self).cursor() == (if old(self).cursor() == old(self).text().len() {
                old(self).cursor()
            } else {
                old(self).cursor() + 1
            }),
    {
        proof {
            use_type_invariant(&*self);
        }
        let cursor_moved_right = if self.character_index == usize::MAX {
            usize::MAX
        } else {
            self.character_index + 1
        };
        self.character_index = self.clamp_cursor(cursor_moved_right);
    }

    /// Puts `new_char` in at the cursor and moves the cursor past it.
    pub fn enter_char(&mut self, new_char: char)
        ensures
            final(self).text() == old(self).text().insert(old(self).cursor() as int, new_char),
            final(self).cursor() == old(self).cursor() + 1,
            final(self).mode() == old(self).mode(),
    {
        proof {
            use_type_invariant(&*self);
        }
        let count = self.input.as_str().unicode_len();
        let at = self.character_index;
        let mut text = String::from_str(self.input.as_str().substring_char(0, at));
        push_char(&mut text, new_char);
        text.append(self.input.as_str().substring_char(at, count));
        assert(text@ =~= self.input@.insert(at as int, new_char));
        self.input = text;
        self.move_cursor_right();
    }

    /// Returns the byte index of the current cursor position: the number of
    /// bytes that the characters to the left of the cursor take in UTF-8.
    pub fn byte_index(&self) -> (index: usize)
        ensures
            index == encode_utf8(self.text().take(self.cursor() as int)).len(),
    {
        proof {
            use_type_invariant(self);
        }
        let left = self.input.as_str().substring_char(0, self.character_index);
        assert(self.input@.take(self.character_index as int) =~= self.input@.subrange(
            0,
            self.character_index as int,
        ));
        left.as_bytes().len()
    }

    /// Takes out the character to the left of the cursor and moves the
    /// cursor onto its place. At the start of the line nothing happens.
    pub fn delete_char(&mut self)
        ensures
            final(self).mode() == old(self).mode(),
            old(self).cursor() == 0 ==> {
                &&& final(self).text() == old(self).text()
                &&& final(self).cursor() == 0
            },
            old(self).cursor() != 0 ==> {
                &&& final(self).text() == old(self).text().remove(old(self).cursor() - 1)
                &&& final(self).cursor() == old(self).cursor() - 1
            },
    {
        proof {
            use_type_invariant(&*self);
        }
        let is_not_cursor_leftmost = self.character_index != 0;
        if is_not_cursor_leftmost {
            let count = self.input.as_str().unicode_len();
            let current_index = self.character_index;
            let from_left_to_current_index = current_index - 1;
            let mut text = String::from_str(
                self.input.as_str().substring_char(0, from_left_to_current_index),
            );
            text.append(self.input.as_str().substring_char(current_index, count));
            assert(text@ =~= self.input@.remove(current_index - 1));
            self.move_cursor_left();
            self.input = text;
        }
    }

    /// Clamp cursor position to be within the bounds of the input string.
    pub fn clamp_cursor(&self, new_cursor_pos: usize) -> (pos: usize)
        ensures
            pos == (if new_cursor_pos <= self.text().len() {
                new_cursor_pos as nat
            } else {
                self.text().len()
            }),
            self.text().len() <= usize::MAX,
    {
        let count = self.input.as_str().unicode_len();
        if new_cursor_pos <= count {
            new_cursor_pos
        } else {
            count
        }
    }
}

} // verus!
