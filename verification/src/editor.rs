//! Single-line text editing for the cell being edited: a character buffer
//! with a cursor, the commands that move and change it, and the
//! horizontally scrolled slice of it that fits a render width.

use vstd::prelude::*;

use crate::chars::{chars_range, chars_to_string};

verus! {

/// Editing commands a key press can mean while a cell is being edited.
#[derive(Clone, Copy, Debug, PartialEq, Eq, Structural)]
pub enum EditCmd {
    Insert(char),
    Backspace,
    Delete,
    Left,
    Right,
    Home,
    End,
}

/// Single-line text-input state: the text under edit and the cursor
/// position within it.
#[derive(Debug)]
pub struct EditBuffer {
    text: Vec<char>,
    cursor: usize,
}

/// Mathematical image of an edit buffer.
pub ghost struct EditModel {
    pub text: Seq<char>,
    pub cursor: int,
}

impl View for EditBuffer {
    type V = EditModel;

    closed spec fn view(&self) -> EditModel {
        EditModel { text: self.text@, cursor: self.cursor as int }
    }
}

/// The cursor sits on a character of the text or just past its end.
pub open spec fn edit_wf(m: EditModel) -> bool {
    0 <= m.cursor <= m.text.len()
}

/// An empty buffer with the cursor at the start.
pub open spec fn edit_empty(m: EditModel) -> bool {
    m.text.len() == 0 && m.cursor == 0
}

/// The model of a buffer that was just created or reset.
pub open spec fn edit_reset() -> EditModel {
    EditModel { text: Seq::empty(), cursor: 0 }
}

/// One editing step at the model level. An insertion into a buffer already
/// at the address-space limit is dropped, so every step is total.
pub open spec fn spec_edit(m: EditModel, cmd: EditCmd) -> EditModel {
    match cmd {
        EditCmd::Insert(c) => {
            if m.text.len() < usize::MAX {
                EditModel { text: m.text.insert(m.cursor, c), cursor: m.cursor + 1 }
            } else {
                m
            }
        },
        EditCmd::Backspace => {
            if m.cursor > 0 {
                EditModel { text: m.text.remove(m.cursor - 1), cursor: m.cursor - 1 }
            } else {
                m
            }
        },
        EditCmd::Delete => {
            if m.cursor < m.text.len() {
                EditModel { text: m.text.remove(m.cursor), cursor: m.cursor }
            } else {
                m
            }
        },
        EditCmd::Left => {
            EditModel {
                text: m.text,
                cursor: if m.cursor > 0 {
                    m.cursor - 1
                } else {
                    0
                },
            }
        },
        EditCmd::Right => {
            EditModel {
                text: m.text,
                cursor: if m.cursor < m.text.len() {
                    m.cursor + 1
                } else {
                    m.text.len() as int
                },
            }
        },
        EditCmd::Home => EditModel { text: m.text, cursor: 0 },
        EditCmd::End => EditModel { text: m.text, cursor: m.text.len() as int },
    }
}

impl EditBuffer {
    /// A fresh, empty buffer.
    pub fn new() -> (r: EditBuffer)
        ensures
            r@ == edit_reset(),
            edit_empty(r@),
    {
        EditBuffer { text: Vec::new(), cursor: 0 }
    }

    /// Applies one editing command.
    pub fn apply(&mut self, cmd: EditCmd)
        requires
            edit_wf(old(self)@),
        ensures
            final(self)@ == spec_edit(old(self)@, cmd),
            edit_wf(final(self)@),
    {
        match cmd {
            EditCmd::Insert(c) => {
                if self.text.len() < usize::MAX {
                    self.text.insert(self.cursor, c);
                    self.cursor = self.cursor + 1;
                }
            },
            EditCmd::Backspace => {
                if self.cursor > 0 {
                    self.text.remove(self.cursor - 1);
                    self.cursor = self.cursor - 1;
                }
            },
            EditCmd::Delete => {
                if self.cursor < self.text.len() {
                    self.text.remove(self.cursor);
                }
            },
            EditCmd::Left => {
                if self.cursor > 0 {
                    self.cursor = self.cursor - 1;
                }
            },
            EditCmd::Right => {
                if self.cursor < self.text.len() {
                    self.cursor = self.cursor + 1;
                }
            },
            EditCmd::Home => {
                self.cursor = 0;
            },
            EditCmd::End => {
                self.cursor = self.text.len();
            },
        }
    }

    /// The finalized text; the buffer is reset to empty.
    pub fn take_text(&mut self) -> (r: String)
        ensures
            r@ == old(self)@.text,
            final(self)@ == edit_reset(),
            edit_empty(final(self)@),
    {
        let r = chars_to_string(&self.text);
        self.text = Vec::new();
        self.cursor = 0;
        r
    }

    /// Discards the buffer contents.
    pub fn reset(&mut self)
        ensures
            final(self)@ == edit_reset(),
            edit_empty(final(self)@),
    {
        self.text = Vec::new();
        self.cursor = 0;
    }

    /// The text under edit.
    pub fn text(&self) -> (r: &Vec<char>)
        ensures
            r@ == self@.text,
    {
        &self.text
    }

    /// The text under edit, as a string.
    pub fn text_string(&self) -> (r: String)
        ensures
            r@ == self@.text,
    {
        chars_to_string(&self.text)
    }

    /// The cursor position.
    pub fn cursor(&self) -> (r: usize)
        ensures
            r as int == self@.cursor,
    {
        self.cursor
    }
}

/// Where the visible window starts so that the cursor stays within `w`
/// columns.
pub open spec fn visible_scroll(m: EditModel, w: int) -> int {
    if m.cursor < w {
        0
    } else {
        m.cursor - w + 1
    }
}

/// The visible slice of an edit buffer within `width` columns, split for
/// rendering: the characters between the scroll point and the cursor, the
/// character under the cursor (a space when the cursor sits past the end
/// of the text), and the characters after it.
pub fn to_text_with_cursor(input: &EditBuffer, width: u16) -> (r: (String, String, String))
    requires
        width >= 1,
        edit_wf(input@),
    ensures
        ({
            let m = input@;
            let scroll = visible_scroll(m, width as int);
            &&& r.0@ == m.text.subrange(scroll, m.cursor)
            &&& r.0@.len() < width as int
            &&& (m.cursor < m.text.len() ==> r.1@ == seq![m.text[m.cursor]] && r.2@
                == m.text.subrange(m.cursor + 1, m.text.len() as int))
            &&& (m.cursor == m.text.len() ==> r.1@ == seq![' '] && r.2@ == Seq::<char>::empty())
        }),
{
    let w = width as usize;
    let scroll: usize = if input.cursor < w {
        0
    } else {
        input.cursor - w + 1
    };
    let before = chars_range(&input.text, scroll, input.cursor);
    let mut at: Vec<char> = Vec::new();
    let after: Vec<char>;
    if input.cursor < input.text.len() {
        at.push(input.text[input.cursor]);
        after = chars_range(&input.text, input.cursor + 1, input.text.len());
    } else {
        at.push(' ');
        after = Vec::new();
    }
    proof {
        assert(at@ =~= seq![at@[0]]);
    }
    (chars_to_string(&before), chars_to_string(&at), chars_to_string(&after))
}

} // verus!
