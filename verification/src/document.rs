//! The document: the full text being edited plus a cursor, and the edit
//! actions that mutate it (insertion, deletion, cursor movement).

use vstd::prelude::*;
use vstd::string::*;

verus! {

/// An edit action on the document, applied at or around the cursor.
#[derive(Debug)]
pub enum EditAction {
    /// Insert the given text at the cursor; the cursor ends after it.
    Insert(String),
    /// Delete the character before the cursor, if any.
    Backspace,
    /// Delete the character at the cursor, if any.
    Delete,
    /// Move the cursor one character towards the start of the text.
    MoveLeft,
    /// Move the cursor one character towards the end of the text.
    MoveRight,
    /// Put the cursor at the given character offset, clamped to the text end.
    MoveTo(usize),
}

/// The mathematical model of a document: its text as a sequence of
/// characters, and the cursor as a character offset into that sequence.
#[verifier::ext_equal]
pub struct DocModel {
    pub text: Seq<char>,
    pub cursor: int,
}

impl DocModel {
    /// The cursor always lies between the start and the end of the text.
    pub open spec fn wf(self) -> bool {
        0 <= self.cursor <= self.text.len()
    }

    pub open spec fn empty() -> DocModel {
        DocModel { text: Seq::empty(), cursor: 0 }
    }

    /// A freshly loaded document: the given text, cursor at the start.
    pub open spec fn loaded(text: Seq<char>) -> DocModel {
        DocModel { text: text, cursor: 0 }
    }
}

/// What one edit action does to a document.
pub open spec fn apply_edit(d: DocModel, a: EditAction) -> DocModel {
    match a {
        EditAction::Insert(s) => DocModel {
            text: d.text.take(d.cursor) + s@ + d.text.skip(d.cursor),
            cursor: d.cursor + s@.len(),
        },
        EditAction::Backspace => if d.cursor > 0 {
            DocModel {
                text: d.text.take(d.cursor - 1) + d.text.skip(d.cursor),
                cursor: d.cursor - 1,
            }
        } else {
            d
        },
        EditAction::Delete => if d.cursor < d.text.len() {
            DocModel { text: d.text.take(d.cursor) + d.text.skip(d.cursor + 1), cursor: d.cursor }
        } else {
            d
        },
        EditAction::MoveLeft => if d.cursor > 0 {
            DocModel { text: d.text, cursor: d.cursor - 1 }
        } else {
            d
        },
        EditAction::MoveRight => if d.cursor < d.text.len() {
            DocModel { text: d.text, cursor: d.cursor + 1 }
        } else {
            d
        },
        EditAction::MoveTo(n) => DocModel {
            text: d.text,
            cursor: if n <= d.text.len() { n as int } else { d.text.len() as int },
        },
    }
}

/// What a sequence of edit actions, applied in order, does to a document:
/// all but the last, then the last.
pub open spec fn apply_edits(d: DocModel, actions: Seq<EditAction>) -> DocModel
    decreases actions.len(),
{
    if actions.len() == 0 {
        d
    } else {
        apply_edit(apply_edits(d, actions.drop_last()), actions.last())
    }
}

/// The number of line breaks in the first `cursor` characters: the cursor's
/// zero-based line.
pub open spec fn line_of(text: Seq<char>, cursor: int) -> int
    decreases cursor,
{
    if cursor <= 0 {
        0
    } else {
        line_of(text, cursor - 1) + if text[cursor - 1] == '\n' {
            1int
        } else {
            0int
        }
    }
}

/// The number of characters between the cursor and the line break before it:
/// the cursor's zero-based column.
pub open spec fn col_of(text: Seq<char>, cursor: int) -> int
    decreases cursor,
{
    if cursor <= 0 {
        0
    } else if text[cursor - 1] == '\n' {
        0
    } else {
        col_of(text, cursor - 1) + 1
    }
}

/// The text being edited and the cursor position within it.
#[derive(Debug)]
pub struct Document {
    pub text: String,
    pub cursor: usize,
}

impl View for Document {
    type V = DocModel;

    open spec fn view(&self) -> DocModel {
        DocModel { text: self.text@, cursor: self.cursor as int }
    }
}

impl Document {
    pub open spec fn wf(&self) -> bool {
        self@.wf()
    }

    /// An empty document with the cursor at the start.
    pub fn new() -> (d: Document)
        ensures
            d.wf(),
            d@ == DocModel::empty(),
    {
        let d = Document { text: String::new(), cursor: 0 };
        proof {
            assert(d@ =~= DocModel::empty());
        }
        d
    }

    /// A document holding the given text, with the cursor at the start.
    pub fn with_text(text: String) -> (d: Document)
        ensures
            d.wf(),
            d@ == DocModel::loaded(text@),
    {
        Document { text, cursor: 0 }
    }

    /// The current text, as a string of its own.
    pub fn text_string(&self) -> (r: String)
        ensures
            r@ == self@.text,
    {
        self.text.clone()
    }

    /// Apply one edit action.
    pub fn apply(&mut self, a: &EditAction)
        requires
            old(self).wf(),
        ensures
            final(self).wf(),
            final(self)@ == apply_edit(old(self)@, *a),
    {
        let len = self.text.as_str().unicode_len();
        match a {
            EditAction::Insert(s) => {
                let pre = self.text.as_str().substring_char(0, self.cursor);
                let post = self.text.as_str().substring_char(self.cursor, len);
                let mut t = pre.to_owned();
                t.append(s.as_str());
                t.append(post);
                let new_len = t.as_str().unicode_len();
                let tail = len - self.cursor;
                self.text = t;
                self.cursor = new_len - tail;
                proof {
                    assert(final(self)@ =~= apply_edit(old(self)@, *a));
                }
            },
            EditAction::Backspace => {
                if self.cursor > 0 {
                    let pre = self.text.as_str().substring_char(0, self.cursor - 1);
                    let post = self.text.as_str().substring_char(self.cursor, len);
                    let mut t = pre.to_owned();
                    t.append(post);
                    self.text = t;
                    self.cursor = self.cursor - 1;
                }
                proof {
                    assert(final(self)@ =~= apply_edit(old(self)@, *a));
                }
            },
            EditAction::Delete => {
                if self.cursor < len {
                    let pre = self.text.as_str().substring_char(0, self.cursor);
                    let post = self.text.as_str().substring_char(self.cursor + 1, len);
                    let mut t = pre.to_owned();
                    t.append(post);
                    self.text = t;
                }
                proof {
                    assert(final(self)@ =~= apply_edit(old(self)@, *a));
                }
            },
            EditAction::MoveLeft => {
                if self.cursor > 0 {
                    self.cursor = self.cursor - 1;
                }
                proof {
                    assert(final(self)@ =~= apply_edit(old(self)@, *a));
                }
            },
            EditAction::MoveRight => {
                if self.cursor < len {
                    self.cursor = self.cursor + 1;
                }
                proof {
                    assert(final(self)@ =~= apply_edit(old(self)@, *a));
                }
            },
            EditAction::MoveTo(n) => {
                self.cursor = if *n <= len {
                    *n
                } else {
                    len
                };
                proof {
                    assert(final(self)@ =~= apply_edit(old(self)@, *a));
                }
            },
        }
    }

    /// Apply a sequence of edit actions, in order.  The resulting document is
    /// exactly the effect of folding each action over the starting document.
    pub fn apply_all(&mut self, actions: &Vec<EditAction>)
        requires
            old(self).wf(),
        ensures
            final(self).wf(),
            final(self)@ == apply_edits(old(self)@, actions@),
    {
        let n = actions.len();
        let mut i: usize = 0;
        while i < n
            invariant
                0 <= i <= n,
                n == actions@.len(),
                self.wf(),
                self@ == apply_edits(old(self)@, actions@.take(i as int)),
            decreases n - i,
        {
            self.apply(&actions[i]);
            proof {
                assert(actions@.take(i + 1).drop_last() =~= actions@.take(i as int));
                assert(actions@.take(i + 1).last() == actions@[i as int]);
            }
            i = i + 1;
        }
        proof {
            assert(actions@.take(n as int) =~= actions@);
        }
    }

    /// The cursor's zero-based line and column.
    pub fn cursor_position(&self) -> (r: (usize, usize))
        requires
            self.wf(),
        ensures
            r.0 == line_of(self@.text, self@.cursor),
            r.1 == col_of(self@.text, self@.cursor),
    {
        let mut line: usize = 0;
        let mut col: usize = 0;
        let mut i: usize = 0;
        while i < self.cursor
            invariant
                0 <= i <= self.cursor <= self.text@.len(),
                line == line_of(self.text@, i as int),
                col == col_of(self.text@, i as int),
                line <= i,
                col <= i,
            decreases self.cursor - i,
        {
            let c = self.text.as_str().get_char(i);
            if c == '\n' {
                line = line + 1;
                col = 0;
            } else {
                col = col + 1;
            }
            i = i + 1;
        }
        (line, col)
    }
}

} // verus!
