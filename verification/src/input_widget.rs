//! The line-input widget: an editable character line with a cursor, a
//! submission history and an optional length bound.

use vstd::prelude::*;
use crate::event::{Event, KeyCode};
use crate::text::{chars_string, str_chars};

verus! {

/// The ASCII whitespace that separates words while editing.
pub open spec fn is_word_space(c: char) -> bool {
    c == ' ' || c == '\t' || c == '\n' || c == '\r' || c == '\x0c'
}

fn is_word_space_exec(c: char) -> (r: bool)
    ensures
        r == is_word_space(c),
{
    c == ' ' || c == '\t' || c == '\n' || c == '\r' || c == '\x0c'
}

/// The position after skipping whitespace leftwards from `p`.
pub open spec fn skip_space_back(v: Seq<char>, p: int) -> int
    decreases p,
{
    if p > 0 && p <= v.len() && is_word_space(v[p - 1]) {
        skip_space_back(v, p - 1)
    } else {
        p
    }
}

/// The position after skipping a word leftwards from `p`.
pub open spec fn skip_word_back(v: Seq<char>, p: int) -> int
    decreases p,
{
    if p > 0 && p <= v.len() && !is_word_space(v[p - 1]) {
        skip_word_back(v, p - 1)
    } else {
        p
    }
}

/// Where the cursor lands moving one word left: over the whitespace before
/// the cursor, then over the word.
pub open spec fn word_left(v: Seq<char>, c: int) -> int {
    if c <= 0 {
        0
    } else {
        skip_word_back(v, skip_space_back(v, c - 1))
    }
}

/// The position after skipping a word rightwards from `p`.
pub open spec fn skip_word_fwd(v: Seq<char>, p: int) -> int
    decreases v.len() - p,
{
    if 0 <= p < v.len() && !is_word_space(v[p]) {
        skip_word_fwd(v, p + 1)
    } else {
        p
    }
}

/// The position after skipping whitespace rightwards from `p`.
pub open spec fn skip_space_fwd(v: Seq<char>, p: int) -> int
    decreases v.len() - p,
{
    if 0 <= p < v.len() && is_word_space(v[p]) {
        skip_space_fwd(v, p + 1)
    } else {
        p
    }
}

/// Where the cursor lands moving one word right: over the word under the
/// cursor, then over the whitespace after it.
pub open spec fn word_right(v: Seq<char>, c: int) -> int {
    if c >= v.len() {
        c
    } else {
        skip_space_fwd(v, skip_word_fwd(v, c))
    }
}

/// What a submission leaves in the history: the line at the back; past a
/// hundred entries the oldest leaves.
pub open spec fn spec_history_add(h: Seq<Seq<char>>, v: Seq<char>) -> Seq<Seq<char>> {
    let pushed = h.push(v);
    if pushed.len() > 100 {
        pushed.drop_first()
    } else {
        pushed
    }
}

/// An editable input line.
#[derive(Debug)]
pub struct InputWidget {
    pub value: Vec<char>,
    pub placeholder: String,
    pub cursor_pos: usize,
    pub history: Vec<Vec<char>>,
    pub history_index: Option<usize>,
    pub is_active: bool,
    pub max_length: Option<usize>,
}

impl InputWidget {
    /// The cursor sits inside the line; a history index points at an
    /// entry.
    pub open spec fn wf(&self) -> bool {
        &&& self.cursor_pos <= self.value@.len()
        &&& match self.history_index {
            Some(i) => i < self.history@.len(),
            None => true,
        }
    }

    pub fn new() -> (r: InputWidget)
        ensures
            r.wf(),
            r.value@.len() == 0,
            r.placeholder@ == "Enter text..."@,
            r.cursor_pos == 0,
            r.history@.len() == 0,
            r.history_index is None,
            !r.is_active,
            r.max_length is None,
    {
        InputWidget {
            value: Vec::new(),
            placeholder: String::from_str("Enter text..."),
            cursor_pos: 0,
            history: Vec::new(),
            history_index: None,
            is_active: false,
            max_length: None,
        }
    }

    pub fn with_placeholder(self, placeholder: &str) -> (r: InputWidget)
        ensures
            r == (InputWidget { placeholder: r.placeholder, ..self }),
            r.placeholder@ == placeholder@,
    {
        InputWidget { placeholder: placeholder.to_owned(), ..self }
    }

    pub fn with_max_length(self, max_length: usize) -> (r: InputWidget)
        ensures
            r == (InputWidget { max_length: Some(max_length), ..self }),
    {
        InputWidget { max_length: Some(max_length), ..self }
    }

    /// Starts from the given text, with the cursor at its end.
    pub fn with_initial_value(self, value: &str) -> (r: InputWidget)
        ensures
            r.value@ == value@,
            r.cursor_pos == value@.len(),
            r.placeholder == self.placeholder,
            r.history == self.history,
            r.history_index == self.history_index,
            r.is_active == self.is_active,
            r.max_length == self.max_length,
    {
        let chars = str_chars(value);
        let cursor = chars.len();
        InputWidget { value: chars, cursor_pos: cursor, ..self }
    }

    pub fn activate(&mut self)
        ensures
            *final(self) == (InputWidget { is_active: true, ..*old(self) }),
    {
        self.is_active = true;
    }

    pub fn deactivate(&mut self)
        ensures
            *final(self) == (InputWidget { is_active: false, ..*old(self) }),
    {
        self.is_active = false;
    }

    /// Empties the line and rests the cursor.
    pub fn clear(&mut self)
        requires
            old(self).wf(),
        ensures
            final(self).wf(),
            final(self).value@ =~= Seq::<char>::empty(),
            final(self).cursor_pos == 0,
            final(self).placeholder == old(self).placeholder,
            final(self).history == old(self).history,
            final(self).history_index == old(self).history_index,
            final(self).is_active == old(self).is_active,
            final(self).max_length == old(self).max_length,
    {
        self.value.clear();
        self.cursor_pos = 0;
        proof {
            assert(self.value@ =~= Seq::<char>::empty());
        }
    }

    /// Hands the line out; a non-empty line joins the history, bounded at
    /// a hundred entries.
    pub fn submit(&mut self) -> (r: String)
        requires
            old(self).wf(),
        ensures
            final(self).wf(),
            r@ == old(self).value@,
            final(self).value@.len() == 0,
            final(self).cursor_pos == 0,
            final(self).history_index is None,
            final(self).is_active == old(self).is_active,
            final(self).max_length == old(self).max_length,
            final(self).placeholder == old(self).placeholder,
            old(self).value@.len() > 0 ==> final(self).history.deep_view() == spec_history_add(
                old(self).history.deep_view(),
                old(self).value@,
            ),
            old(self).value@.len() == 0 ==> final(self).history == old(self).history,
    {
        let text = chars_string(&self.value);
        if !self.value.is_empty() {
            let ghost before = self.history.deep_view();
            let line = str_chars(text.as_str());
            proof {
                assert(line.deep_view() =~= old(self).value@);
            }
            self.history.push(line);
            proof {
                assert(self.history.deep_view() =~= before.push(old(self).value@));
            }
            if self.history.len() > 100 {
                let ghost pushed = self.history.deep_view();
                self.history.remove(0);
                proof {
                    assert(self.history.deep_view() =~= pushed.drop_first());
                }
            }
        }
        self.value.clear();
        self.cursor_pos = 0;
        self.history_index = None;
        proof {
            assert(self.value@ =~= Seq::<char>::empty());
        }
        text
    }

    /// Inserts a character at the cursor, unless the line is at its
    /// length bound.
    pub fn insert_char(&mut self, c: char)
        requires
            old(self).wf(),
        ensures
            final(self).wf(),
            final(self).placeholder == old(self).placeholder,
            final(self).history == old(self).history,
            final(self).history_index == old(self).history_index,
            final(self).is_active == old(self).is_active,
            final(self).max_length == old(self).max_length,
            (old(self).max_length matches Some(m) && old(self).value@.len() >= m) ==> {
                &&& final(self).value == old(self).value
                &&& final(self).cursor_pos == old(self).cursor_pos
            },
            !(old(self).max_length matches Some(m) && old(self).value@.len() >= m) ==> {
                &&& final(self).value@ == old(self).value@.insert(old(self).cursor_pos as int, c)
                &&& final(self).cursor_pos == old(self).cursor_pos + 1
            },
    {
        match self.max_length {
            Some(max_length) => {
                if self.value.len() >= max_length {
                    return ;
                }
            },
            None => {},
        }
        self.value.insert(self.cursor_pos, c);
        let n = self.value.len();
        proof {
            assert(self.cursor_pos < n);
        }
        self.cursor_pos += 1;
    }

    /// Deletes the character before the cursor, when there is one.
    pub fn delete_char(&mut self)
        requires
            old(self).wf(),
        ensures
            final(self).wf(),
            final(self).placeholder == old(self).placeholder,
            final(self).history == old(self).history,
            final(self).history_index == old(self).history_index,
            final(self).is_active == old(self).is_active,
            final(self).max_length == old(self).max_length,
            old(self).cursor_pos == 0 ==> {
                &&& final(self).value == old(self).value
                &&& final(self).cursor_pos == 0
            },
            old(self).cursor_pos > 0 ==> {
                &&& final(self).value@ == old(self).value@.remove(old(self).cursor_pos - 1)
                &&& final(self).cursor_pos == old(self).cursor_pos - 1
            },
    {
        if self.cursor_pos > 0 {
            self.value.remove(self.cursor_pos - 1);
            self.cursor_pos -= 1;
        }
    }

    /// Deletes the character under the cursor, when there is one.
    pub fn delete_char_forward(&mut self)
        requires
            old(self).wf(),
        ensures
            final(self).wf(),
            final(self).placeholder == old(self).placeholder,
            final(self).history == old(self).history,
            final(self).history_index == old(self).history_index,
            final(self).is_active == old(self).is_active,
            final(self).max_length == old(self).max_length,
            final(self).cursor_pos == old(self).cursor_pos,
            old(self).cursor_pos >= old(self).value@.len() ==> final(self).value == old(self).value,
            old(self).cursor_pos < old(self).value@.len() ==> final(self).value@ == old(self).value@.remove(old(self).cursor_pos as int),
    {
        if self.cursor_pos < self.value.len() {
            self.value.remove(self.cursor_pos);
        }
    }

    pub fn move_cursor_left(&mut self)
        ensures
            *final(self) == (InputWidget {
                cursor_pos: if old(self).cursor_pos > 0 {
                    (old(self).cursor_pos - 1) as usize
                } else {
                    0
                },
                ..*old(self)
            }),
    {
        if self.cursor_pos > 0 {
            self.cursor_pos -= 1;
        }
    }

    pub fn move_cursor_right(&mut self)
        ensures
            *final(self) == (InputWidget {
                cursor_pos: if old(self).cursor_pos < old(self).value@.len() {
                    (old(self).cursor_pos + 1) as usize
                } else {
                    old(self).cursor_pos
                },
                ..*old(self)
            }),
    {
        if self.cursor_pos < self.value.len() {
            self.cursor_pos += 1;
        }
    }

    pub fn move_cursor_to_start(&mut self)
        ensures
            *final(self) == (InputWidget { cursor_pos: 0, ..*old(self) }),
    {
        self.cursor_pos = 0;
    }

    pub fn move_cursor_to_end(&mut self)
        ensures
            final(self).cursor_pos == old(self).value@.len(),
            final(self).value == old(self).value,
            final(self).placeholder == old(self).placeholder,
            final(self).history == old(self).history,
            final(self).history_index == old(self).history_index,
            final(self).is_active == old(self).is_active,
            final(self).max_length == old(self).max_length,
    {
        self.cursor_pos = self.value.len();
    }

    /// Moves the cursor to the start of the word before it.
    pub fn move_cursor_word_left(&mut self)
        requires
            old(self).wf(),
        ensures
            final(self).wf(),
            final(self).value == old(self).value,
            final(self).placeholder == old(self).placeholder,
            final(self).history == old(self).history,
            final(self).history_index == old(self).history_index,
            final(self).is_active == old(self).is_active,
            final(self).max_length == old(self).max_length,
            final(self).cursor_pos == word_left(old(self).value@, old(self).cursor_pos as int),
    {
        if self.cursor_pos > 0 {
            let ghost v = self.value@;
            let mut pos: usize = self.cursor_pos - 1;
            while pos > 0 && is_word_space_exec(self.value[pos - 1])
                invariant
                    v == self.value@,
                    pos <= v.len(),
                    skip_space_back(v, old(self).cursor_pos - 1) == skip_space_back(v, pos as int),
                decreases pos,
            {
                pos -= 1;
            }
            proof {
                assert(skip_space_back(v, pos as int) == pos as int);
            }
            while pos > 0 && !is_word_space_exec(self.value[pos - 1])
                invariant
                    v == self.value@,
                    pos <= v.len(),
                    skip_word_back(v, skip_space_back(v, old(self).cursor_pos - 1))
                        == skip_word_back(v, pos as int),
                decreases pos,
            {
                pos -= 1;
            }
            proof {
                assert(skip_word_back(v, pos as int) == pos as int);
            }
            self.cursor_pos = pos;
        }
    }

    /// Moves the cursor past the word under it and the whitespace after.
    pub fn move_cursor_word_right(&mut self)
        requires
            old(self).wf(),
        ensures
            final(self).wf(),
            final(self).value == old(self).value,
            final(self).placeholder == old(self).placeholder,
            final(self).history == old(self).history,
            final(self).history_index == old(self).history_index,
            final(self).is_active == old(self).is_active,
            final(self).max_length == old(self).max_length,
            final(self).cursor_pos == word_right(old(self).value@, old(self).cursor_pos as int),
    {
        let len = self.value.len();
        if self.cursor_pos < len {
            let ghost v = self.value@;
            let mut pos: usize = self.cursor_pos;
            while pos < len && !is_word_space_exec(self.value[pos])
                invariant
                    v == self.value@,
                    len == v.len(),
                    pos <= len,
                    skip_word_fwd(v, old(self).cursor_pos as int) == skip_word_fwd(v, pos as int),
                decreases len - pos,
            {
                pos += 1;
            }
            proof {
                assert(skip_word_fwd(v, pos as int) == pos as int);
            }
            while pos < len && is_word_space_exec(self.value[pos])
                invariant
                    v == self.value@,
                    len == v.len(),
                    pos <= len,
                    skip_space_fwd(v, skip_word_fwd(v, old(self).cursor_pos as int))
                        == skip_space_fwd(v, pos as int),
                decreases len - pos,
            {
                pos += 1;
            }
            proof {
                assert(skip_space_fwd(v, pos as int) == pos as int);
            }
            self.cursor_pos = pos;
        }
    }

    /// Steps backwards through the submission history, loading the entry
    /// into the line.
    pub fn history_prev(&mut self)
        requires
            old(self).wf(),
        ensures
            final(self).wf(),
            final(self).placeholder == old(self).placeholder,
            final(self).history == old(self).history,
            final(self).is_active == old(self).is_active,
            final(self).max_length == old(self).max_length,
            old(self).history@.len() == 0 ==> *final(self) == *old(self),
            old(self).history@.len() > 0 ==> {
                let idx = match old(self).history_index {
                    Some(i) => i as int,
                    None => old(self).history@.len() as int,
                };
                if idx > 0 {
                    &&& final(self).history_index == Some((idx - 1) as usize)
                    &&& final(self).value@ == old(self).history.deep_view()[idx - 1]
                    &&& final(self).cursor_pos == final(self).value@.len()
                } else {
                    *final(self) == *old(self)
                }
            },
    {
        if !self.history.is_empty() {
            let index = match self.history_index {
                Some(i) => i,
                None => self.history.len(),
            };
            if index > 0 {
                let new_index = index - 1;
                self.history_index = Some(new_index);
                let entry = chars_string(&self.history[new_index]);
                self.value = str_chars(entry.as_str());
                self.cursor_pos = self.value.len();
            }
        }
    }

    /// Steps forwards through the submission history; past its end the
    /// line clears.
    pub fn history_next(&mut self)
        requires
            old(self).wf(),
        ensures
            final(self).wf(),
            final(self).placeholder == old(self).placeholder,
            final(self).history == old(self).history,
            final(self).is_active == old(self).is_active,
            final(self).max_length == old(self).max_length,
            old(self).history@.len() == 0 ==> *final(self) == *old(self),
            old(self).history@.len() > 0 ==> {
                let idx = match old(self).history_index {
                    Some(i) => i as int,
                    None => 0,
                };
                if idx < old(self).history@.len() - 1 {
                    &&& final(self).history_index == Some((idx + 1) as usize)
                    &&& final(self).value@ == old(self).history.deep_view()[idx + 1]
                    &&& final(self).cursor_pos == final(self).value@.len()
                } else {
                    &&& final(self).history_index is None
                    &&& final(self).value@.len() == 0
                    &&& final(self).cursor_pos == 0
                }
            },
    {
        if !self.history.is_empty() {
            let index = match self.history_index {
                Some(i) => i,
                None => 0,
            };
            if index < self.history.len() - 1 {
                let new_index = index + 1;
                self.history_index = Some(new_index);
                let entry = chars_string(&self.history[new_index]);
                self.value = str_chars(entry.as_str());
                self.cursor_pos = self.value.len();
            } else {
                self.history_index = None;
                self.value.clear();
                self.cursor_pos = 0;
                proof {
                    assert(self.value@ =~= Seq::<char>::empty());
                }
            }
        }
    }

    pub fn get_cursor_position(&self) -> (r: usize)
        ensures
            r == self.cursor_pos,
    {
        self.cursor_pos
    }

    pub fn is_empty(&self) -> (r: bool)
        ensures
            r == (self.value@.len() == 0),
    {
        self.value.is_empty()
    }

    /// The line as text.
    pub fn value_text(&self) -> (r: String)
        ensures
            r@ == self.value@,
    {
        chars_string(&self.value)
    }

    /// Reacts to one terminal event when active; reports whether the
    /// event was taken.
    pub fn handle_event(&mut self, event: &Event) -> (r: bool)
        requires
            old(self).wf(),
        ensures
            final(self).wf(),
            !old(self).is_active ==> *final(self) == *old(self) && !r,
    {
        if !self.is_active {
            return false;
        }
        match event {
            Event::Key(key_event) => {
                match key_event.code {
                    KeyCode::Char(c) => {
                        self.insert_char(c);
                        true
                    },
                    KeyCode::Backspace => {
                        self.delete_char();
                        true
                    },
                    KeyCode::Delete => {
                        self.delete_char_forward();
                        true
                    },
                    KeyCode::Left => {
                        self.move_cursor_left();
                        true
                    },
                    KeyCode::Right => {
                        self.move_cursor_right();
                        true
                    },
                    KeyCode::Up => {
                        self.history_prev();
                        true
                    },
                    KeyCode::Down => {
                        self.history_next();
                        true
                    },
                    KeyCode::Home => {
                        self.move_cursor_to_start();
                        true
                    },
                    KeyCode::End => {
                        self.move_cursor_to_end();
                        true
                    },
                    KeyCode::Tab => {
                        self.insert_char('\t');
                        true
                    },
                    _ => false,
                }
            },
            _ => false,
        }
    }
}

impl Default for InputWidget {
    fn default() -> (r: InputWidget)
        ensures
            r.wf(),
            r.value@.len() == 0,
            r.cursor_pos == 0,
            r.history@.len() == 0,
            r.history_index is None,
            !r.is_active,
            r.max_length is None,
    {
        InputWidget::new()
    }
}

} // verus!
