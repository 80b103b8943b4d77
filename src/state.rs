//! The ideas, the selection, the two draft fields, and the store operations.
use vstd::prelude::*;
use crate::text::is_blank;

verus! {

/// One recorded idea.
#[derive(Debug)]
pub struct Idea {
    pub title: String,
    pub description: String,
}

impl Idea {
    pub fn new(title: &str, description: &str) -> (r: Self)
        ensures
            r.title@ == title@,
            r.description@ == description@,
    {
        Idea { title: title.to_owned(), description: description.to_owned() }
    }

    pub open spec fn pair(&self) -> (Seq<char>, Seq<char>) {
        (self.title@, self.description@)
    }
}

/// The top-level interaction state.
#[derive(Clone, Copy, PartialEq, Eq, Debug, Structural)]
pub enum Mode {
    /// Browsing the list.
    Read,
    /// Composing a new idea.
    Write,
    /// Changing the selected idea.
    Edit,
}

/// Which target receives keystrokes while composing or editing.
#[derive(Clone, Copy, PartialEq, Eq, Debug, Structural)]
pub enum Focus {
    Title,
    Description,
    Add,
}

/// The mathematical state of an [`App`].
pub struct Board {
    pub exit: bool,
    pub active_index: int,
    pub ideas: Seq<(Seq<char>, Seq<char>)>,
    pub focus: Option<Focus>,
    pub mode: Mode,
    pub title: Seq<char>,
    pub description: Seq<char>,
    pub cursor: (u16, u16),
}

impl Board {
    /// The selection lies inside a non-empty list and is 0 for an empty one; a
    /// focus exists exactly outside of Read mode.
    pub open spec fn wf(self) -> bool {
        &&& (self.mode == Mode::Read <==> self.focus is None)
        &&& 0 <= self.active_index
        &&& self.ideas.len() == 0 ==> self.active_index == 0
        &&& self.ideas.len() > 0 ==> self.active_index < self.ideas.len()
    }

    /// The list with the idea at `i` removed, the selection kept inside it.
    pub open spec fn removed(self, i: int) -> Board {
        if 0 <= i < self.ideas.len() {
            let ideas = self.ideas.remove(i);
            Board {
                ideas,
                active_index: if self.active_index >= ideas.len() && self.active_index > 0 {
                    self.active_index - 1
                } else {
                    self.active_index
                },
                ..self
            }
        } else {
            self
        }
    }

    /// The drafts replaced by the selected idea, when there is one.
    pub open spec fn loaded(self) -> Board {
        if 0 <= self.active_index < self.ideas.len() {
            Board {
                title: self.ideas[self.active_index].0,
                description: self.ideas[self.active_index].1,
                ..self
            }
        } else {
            self
        }
    }

    /// The selected idea replaced by the drafts; nothing changes on an empty list.
    pub open spec fn edit_saved(self) -> Board {
        if 0 <= self.active_index < self.ideas.len() {
            Board {
                ideas: self.ideas.update(self.active_index, (self.title, self.description)),
                ..self
            }
        } else {
            self
        }
    }

    /// Both drafts emptied.
    pub open spec fn cleared(self) -> Board {
        Board { title: Seq::empty(), description: Seq::empty(), ..self }
    }

    /// Whether the title draft holds more than white space.
    pub open spec fn title_filled(self) -> bool {
        !is_blank(self.title)
    }
}

/// The controller: the ideas, the selection, the input mode, and the drafts.
pub struct App {
    pub exit: bool,
    pub active_index: usize,
    pub ideas: Vec<Idea>,
    pub focus: Option<Focus>,
    pub mode: Mode,
    /// The title draft.
    pub title: String,
    /// The description draft.
    pub description: String,
    pub cursor_position: (u16, u16),
}

impl App {
    pub open spec fn ideas_view(&self) -> Seq<(Seq<char>, Seq<char>)> {
        self.ideas@.map_values(|i: Idea| i.pair())
    }

    pub open spec fn board(&self) -> Board {
        Board {
            exit: self.exit,
            active_index: self.active_index as int,
            ideas: self.ideas_view(),
            focus: self.focus,
            mode: self.mode,
            title: self.title@,
            description: self.description@,
            cursor: self.cursor_position,
        }
    }

    pub open spec fn wf(&self) -> bool {
        self.board().wf()
    }

    /// Browsing an empty list with empty drafts.
    pub fn new() -> (r: App)
        ensures
            r.wf(),
            r.board() == (Board {
                exit: false,
                active_index: 0,
                ideas: Seq::empty(),
                focus: None,
                mode: Mode::Read,
                title: Seq::empty(),
                description: Seq::empty(),
                cursor: (0, 0),
            }),
    {
        let r = App {
            exit: false,
            active_index: 0,
            ideas: Vec::new(),
            focus: None,
            mode: Mode::Read,
            title: String::new(),
            description: String::new(),
            cursor_position: (0, 0),
        };
        assert(r.ideas_view() =~= Seq::empty());
        r
    }

    /// Takes over a stored list and selection; a selection past the end of the
    /// list moves to its last idea, or to 0 when the list is empty.
    pub fn restore(&mut self, ideas: Vec<Idea>, active_index: usize)
        requires
            old(self).wf(),
        ensures
            final(self).wf(),
            final(self).board() == (Board {
                ideas: ideas@.map_values(|i: Idea| i.pair()),
                active_index: if ideas@.len() == 0 {
                    0
                } else if active_index >= ideas@.len() {
                    ideas@.len() - 1
                } else {
                    active_index as int
                },
                ..old(self).board()
            }),
    {
        let n = ideas.len();
        self.active_index = if n == 0 {
            0
        } else if active_index >= n {
            n - 1
        } else {
            active_index
        };
        self.ideas = ideas;
    }
}

/// The store operations on an [`App`].
pub trait Handler {
    fn add_idea(&mut self, title: &str, description: &str);

    fn remove_idea(&mut self, index: usize);

    fn clear_buffer(&mut self);

    fn quit(&mut self);

    fn save_edit(&mut self);

    fn load_buffer(&mut self) -> bool;
}

impl Handler for App {
    /// Appends an idea; the store itself accepts any title.
    fn add_idea(&mut self, title: &str, description: &str)
        ensures
            final(self).board() == (Board {
                ideas: old(self).board().ideas.push((title@, description@)),
                ..old(self).board()
            }),
            old(self).wf() ==> final(self).wf(),
    {
        self.ideas.push(Idea::new(title, description));
        assert(self.ideas_view() =~= old(self).ideas_view().push((title@, description@)));
    }

    /// Removes the idea at `index` when there is one and keeps the selection
    /// inside the list; an index past the end changes nothing.
    fn remove_idea(&mut self, index: usize)
        ensures
            final(self).board() == old(self).board().removed(index as int),
            old(self).wf() ==> final(self).wf(),
    {
        if index < self.ideas.len() {
            self.ideas.remove(index);
            if self.active_index >= self.ideas.len() && self.active_index > 0 {
                self.active_index = self.active_index - 1;
            }
            assert(self.ideas_view() =~= old(self).ideas_view().remove(index as int));
        }
    }

    fn clear_buffer(&mut self)
        ensures
            final(self).board() == old(self).board().cleared(),
            old(self).wf() ==> final(self).wf(),
    {
        self.title.clear();
        self.description.clear();
    }

    fn quit(&mut self)
        ensures
            final(self).board() == (Board { exit: true, ..old(self).board() }),
            old(self).wf() ==> final(self).wf(),
    {
        self.exit = true;
    }

    /// Writes the drafts into the selected idea; nothing on an empty list.
    fn save_edit(&mut self)
        ensures
            final(self).board() == old(self).board().edit_saved(),
            old(self).wf() ==> final(self).wf(),
    {
        let index = self.active_index;
        if index < self.ideas.len() {
            let idea = Idea { title: self.title.clone(), description: self.description.clone() };
            self.ideas.set(index, idea);
            assert(self.ideas_view() =~= old(self).ideas_view().update(
                index as int,
                (self.title@, self.description@),
            ));
        }
    }

    /// Copies the selected idea into the drafts; false when nothing is selected.
    fn load_buffer(&mut self) -> (r: bool)
        ensures
            r == (old(self).active_index < old(self).ideas@.len()),
            final(self).board() == old(self).board().loaded(),
            old(self).wf() ==> final(self).wf(),
    {
        let index = self.active_index;
        if index < self.ideas.len() {
            self.title = self.ideas[index].title.clone();
            self.description = self.ideas[index].description.clone();
            true
        } else {
            false
        }
    }
}

} // verus!
