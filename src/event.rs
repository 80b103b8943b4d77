//! Routing of key presses: the transition table of modes and focus, and the
//! edits it makes to the drafts and the ideas.
use vstd::prelude::*;
use crate::state::{App, Board, Focus, Idea, Mode};
use crate::state::Handler as StateHandler;
use crate::text::str_is_blank;

verus! {

/// A key press, as far as the controller tells keys apart.
#[derive(Clone, Copy, PartialEq, Eq, Debug, Structural)]
pub enum Key {
    Char(char),
    Enter,
    Backspace,
    Tab,
    Esc,
    Left,
    Right,
    Up,
    Down,
    Other,
}

/// What must be written out after a key press.
#[derive(Clone, Copy, PartialEq, Eq, Debug, Structural)]
pub enum Persist {
    Nothing,
    /// The whole list of ideas.
    Ideas,
    /// The selected index.
    Index,
}

pub open spec fn inc_col(x: u16) -> u16 {
    if x == u16::MAX {
        x
    } else {
        (x + 1) as u16
    }
}

pub open spec fn dec_col(x: u16) -> u16 {
    if x == 0 {
        x
    } else {
        (x - 1) as u16
    }
}

/// A length as a column, held at the largest column.
pub open spec fn col_of_len(n: nat) -> u16 {
    if n > u16::MAX {
        u16::MAX
    } else {
        n as u16
    }
}

impl Board {
    pub open spec fn with_col(self, col: u16) -> Board {
        Board { cursor: (col, self.cursor.1), ..self }
    }

    /// A character typed into the focused field.
    pub open spec fn typed(self, c: char) -> Board {
        match self.focus {
            Some(Focus::Title) => Board {
                title: self.title.push(c),
                ..self.with_col(inc_col(self.cursor.0))
            },
            Some(Focus::Description) => Board {
                description: self.description.push(c),
                ..self.with_col(inc_col(self.cursor.0))
            },
            _ => self,
        }
    }

    /// The last character of the focused field removed.
    pub open spec fn erased(self) -> Board {
        match self.focus {
            Some(Focus::Title) => if self.title.len() > 0 {
                Board { title: self.title.drop_last(), ..self }
            } else {
                self
            },
            Some(Focus::Description) => if self.description.len() > 0 {
                Board { description: self.description.drop_last(), ..self }
            } else {
                self
            },
            _ => self,
        }
    }

    /// Focus moved on: Title to Description (only with a title that is not
    /// blank), Description to Add, Add to Title.
    pub open spec fn tabbed(self) -> Board {
        match self.focus {
            Some(Focus::Title) => if self.title_filled() {
                Board {
                    focus: Some(Focus::Description),
                    ..self.with_col(col_of_len(self.description.len()))
                }
            } else {
                self
            },
            Some(Focus::Description) => Board {
                focus: Some(Focus::Add),
                ..self.with_col(col_of_len(self.description.len()))
            },
            Some(Focus::Add) => Board { focus: Some(Focus::Title), ..self },
            None => self,
        }
    }

    /// The drafts committed: a new idea in Write mode, the selected idea
    /// changed in Edit mode; then empty drafts and focus on the title.
    pub open spec fn committed(self) -> Board {
        let stored = if self.mode == Mode::Write {
            Board { ideas: self.ideas.push((self.title, self.description)), ..self }
        } else {
            self.edit_saved()
        };
        Board { focus: Some(Focus::Title), ..stored.cleared() }
    }

    /// A key pressed while browsing. A deletion asks for nothing to be written
    /// out; the list on disk follows at the next commit.
    pub open spec fn read_key(self, key: Key) -> (Board, Persist) {
        if key == Key::Char('q') {
            (Board { exit: true, ..self }, Persist::Index)
        } else if key == Key::Char('d') {
            (self.removed(self.active_index), Persist::Nothing)
        } else if key == Key::Up || key == Key::Char('k') {
            let i = if self.active_index > 0 {
                self.active_index - 1
            } else {
                self.active_index
            };
            (Board { active_index: i, ..self }, Persist::Nothing)
        } else if key == Key::Down || key == Key::Char('j') {
            let i = if self.active_index + 1 < self.ideas.len() {
                self.active_index + 1
            } else {
                self.active_index
            };
            (Board { active_index: i, ..self }, Persist::Nothing)
        } else if key == Key::Char('e') || key == Key::Char('c') {
            (Board { focus: Some(Focus::Title), mode: Mode::Edit, ..self.loaded() }, Persist::Nothing)
        } else if key == Key::Char('a') || key == Key::Char('i') {
            (Board { focus: Some(Focus::Title), mode: Mode::Write, ..self }, Persist::Nothing)
        } else {
            (self, Persist::Nothing)
        }
    }

    /// A key pressed while composing or editing. Right moves the caret right
    /// in Write mode and, as Left does, left in Edit mode.
    pub open spec fn compose_key(self, key: Key) -> (Board, Persist) {
        match key {
            Key::Char(c) => (self.typed(c), Persist::Nothing),
            Key::Enter => (self.committed(), Persist::Ideas),
            Key::Backspace => (self.erased(), Persist::Nothing),
            Key::Tab => (self.tabbed(), Persist::Nothing),
            Key::Esc => (Board { mode: Mode::Read, focus: None, ..self }, Persist::Nothing),
            Key::Left => (self.with_col(dec_col(self.cursor.0)), Persist::Nothing),
            Key::Right => if self.mode == Mode::Write {
                (self.with_col(inc_col(self.cursor.0)), Persist::Nothing)
            } else {
                (self.with_col(dec_col(self.cursor.0)), Persist::Nothing)
            },
            _ => (self, Persist::Nothing),
        }
    }

    /// The state after `key` and what must be written out.
    pub open spec fn step(self, key: Key) -> (Board, Persist) {
        if self.mode == Mode::Read {
            self.read_key(key)
        } else {
            self.compose_key(key)
        }
    }
}

/// Tab on the title moves focus to the description exactly when the title
/// draft holds more than white space; otherwise nothing changes.
pub proof fn lemma_tab_needs_title(b: Board)
    requires
        b.wf(),
        b.mode != Mode::Read,
        b.focus == Some(Focus::Title),
    ensures
        b.title_filled() ==> b.step(Key::Tab).0.focus == Some(Focus::Description),
        !b.title_filled() ==> b.step(Key::Tab).0 == b,
{
}

/// Every key press keeps the selection inside the list (at 0 on an empty
/// list) and a focus exactly outside of Read mode; in particular deleting the
/// only idea leaves an empty list with the selection at 0.
pub proof fn lemma_step_keeps_wf(b: Board, key: Key)
    requires
        b.wf(),
    ensures
        b.step(key).0.wf(),
        b.mode == Mode::Read && key == Key::Char('d') && b.ideas.len() == 1 ==> b.step(
            key,
        ).0.ideas.len() == 0 && b.step(key).0.active_index == 0,
{
}

fn col_from_len(n: usize) -> (r: u16)
    ensures
        r == col_of_len(n as nat),
{
    if n > u16::MAX as usize {
        u16::MAX
    } else {
        n as u16
    }
}

impl App {
    fn type_char(&mut self, c: char)
        ensures
            final(self).board() == old(self).board().typed(c),
    {
        match self.focus {
            Some(Focus::Title) => {
                self.title.push(c);
                self.cursor_position.0 = self.cursor_position.0.saturating_add(1);
            },
            Some(Focus::Description) => {
                self.description.push(c);
                self.cursor_position.0 = self.cursor_position.0.saturating_add(1);
            },
            _ => {},
        }
    }

    fn erase_char(&mut self)
        ensures
            final(self).board() == old(self).board().erased(),
    {
        match self.focus {
            Some(Focus::Title) => {
                self.title.pop();
            },
            Some(Focus::Description) => {
                self.description.pop();
            },
            _ => {},
        }
    }

    fn next_focus(&mut self)
        ensures
            final(self).board() == old(self).board().tabbed(),
    {
        match self.focus {
            Some(Focus::Title) => {
                if !str_is_blank(self.title.as_str()) {
                    self.cursor_position.0 = col_from_len(self.description.as_str().unicode_len());
                    self.focus = Some(Focus::Description);
                }
            },
            Some(Focus::Description) => {
                self.focus = Some(Focus::Add);
                self.cursor_position.0 = col_from_len(self.description.as_str().unicode_len());
            },
            Some(Focus::Add) => {
                self.focus = Some(Focus::Title);
            },
            None => {},
        }
    }

    fn commit(&mut self)
        ensures
            final(self).board() == old(self).board().committed(),
    {
        if self.mode == Mode::Write {
            let title = self.title.clone();
            let description = self.description.clone();
            self.add_idea(title.as_str(), description.as_str());
        } else {
            self.save_edit();
        }
        self.clear_buffer();
        self.focus = Some(Focus::Title);
    }
}

/// Key handling of an [`App`].
pub trait Handler {
    fn handle_key_event(&mut self, key: Key) -> Persist;
}

impl Handler for App {
    /// Applies one key press by the transition table of the current mode.
    fn handle_key_event(&mut self, key: Key) -> (r: Persist)
        ensures
            (final(self).board(), r) == old(self).board().step(key),
            old(self).wf() ==> final(self).wf(),
    {
        match self.mode {
            Mode::Read => match key {
                Key::Char('q') => {
                    self.quit();
                    return Persist::Index;
                },
                Key::Char('d') => {
                    let index = self.active_index;
                    self.remove_idea(index);
                },
                Key::Up | Key::Char('k') => {
                    if self.active_index != 0 {
                        self.active_index = self.active_index - 1;
                    }
                },
                Key::Down | Key::Char('j') => {
                    if self.active_index < self.ideas.len() && self.active_index + 1
                        < self.ideas.len() {
                        self.active_index = self.active_index + 1;
                    }
                },
                Key::Char('e') | Key::Char('c') => {
                    self.focus = Some(Focus::Title);
                    self.load_buffer();
                    self.mode = Mode::Edit;
                },
                Key::Char('a') | Key::Char('i') => {
                    self.mode = Mode::Write;
                    self.focus = Some(Focus::Title);
                },
                _ => {},
            },
            Mode::Write | Mode::Edit => match key {
                Key::Char(c) => self.type_char(c),
                Key::Enter => {
                    self.commit();
                    return Persist::Ideas;
                },
                Key::Backspace => self.erase_char(),
                Key::Tab => self.next_focus(),
                Key::Esc => {
                    self.mode = Mode::Read;
                    self.focus = None;
                },
                Key::Left => {
                    self.cursor_position.0 = self.cursor_position.0.saturating_sub(1);
                },
                Key::Right => {
                    if self.mode == Mode::Write {
                        self.cursor_position.0 = self.cursor_position.0.saturating_add(1);
                    } else {
                        self.cursor_position.0 = self.cursor_position.0.saturating_sub(1);
                    }
                },
                _ => {},
            },
        }
        Persist::Nothing
    }
}

} // verus!
