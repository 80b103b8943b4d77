//! The lines that show the list of ideas, before any styling.
use vstd::prelude::*;
use vstd::string::StringExecFns;
use crate::state::{App, Idea};

verus! {

/// How a line of the list is shown.
#[derive(Clone, Copy, PartialEq, Eq, Debug, Structural)]
pub enum Tone {
    /// An empty line around the selected idea.
    Spacer,
    /// The selected idea's title.
    Selected,
    /// The selected idea's description.
    Detail,
    /// The title of an idea that is not selected.
    Plain,
}

/// One line of the list.
pub struct ListLine {
    pub text: String,
    pub tone: Tone,
}

/// The lines of one idea: a selected idea is framed by empty lines, its title
/// marked and its description, when not empty, indented below it; any other
/// idea shows its title alone.
pub open spec fn idea_block(idea: (Seq<char>, Seq<char>), selected: bool) -> Seq<(Seq<char>, Tone)> {
    if selected {
        let head = seq![(Seq::<char>::empty(), Tone::Spacer), ("> "@ + idea.0, Tone::Selected)];
        let body = if idea.1.len() > 0 {
            seq![("      "@ + idea.1, Tone::Detail)]
        } else {
            Seq::empty()
        };
        head + body + seq![(Seq::<char>::empty(), Tone::Spacer)]
    } else {
        seq![(idea.0, Tone::Plain)]
    }
}

/// The lines of the list's first `ideas.len()` ideas, with `active` selected.
pub open spec fn list_lines(ideas: Seq<(Seq<char>, Seq<char>)>, active: int) -> Seq<(Seq<char>, Tone)>
    decreases ideas.len(),
{
    if ideas.len() == 0 {
        Seq::empty()
    } else {
        list_lines(ideas.drop_last(), active) + idea_block(
            ideas.last(),
            ideas.len() - 1 == active,
        )
    }
}

pub open spec fn line_views(lines: Seq<ListLine>) -> Seq<(Seq<char>, Tone)> {
    lines.map_values(|l: ListLine| (l.text@, l.tone))
}

fn push_line(lines: &mut Vec<ListLine>, text: String, tone: Tone)
    ensures
        line_views(final(lines)@) == line_views(old(lines)@).push((text@, tone)),
{
    lines.push(ListLine { text, tone });
    assert(line_views(lines@) =~= line_views(old(lines)@).push((text@, tone)));
}

fn prefixed(prefix: &str, s: &String) -> (r: String)
    ensures
        r@ == prefix@ + s@,
{
    let mut r = String::from_str(prefix);
    r.append(s.as_str());
    r
}

impl App {
    /// The lines that show the list, the selected idea expanded.
    pub fn idea_lines(&self) -> (r: Vec<ListLine>)
        ensures
            line_views(r@) == list_lines(self.ideas_view(), self.active_index as int),
    {
        let mut lines: Vec<ListLine> = Vec::new();
        let mut i: usize = 0;
        assert(line_views(lines@) =~= list_lines(self.ideas_view().take(0), self.active_index as int));
        while i < self.ideas.len()
            invariant
                i <= self.ideas.len(),
                line_views(lines@) == list_lines(
                    self.ideas_view().take(i as int),
                    self.active_index as int,
                ),
            decreases self.ideas.len() - i,
        {
            let idea: &Idea = &self.ideas[i];
            let ghost before = line_views(lines@);
            if i == self.active_index {
                push_line(&mut lines, String::new(), Tone::Spacer);
                push_line(&mut lines, prefixed("> ", &idea.title), Tone::Selected);
                if !idea.description.as_str().is_empty() {
                    push_line(&mut lines, prefixed("      ", &idea.description), Tone::Detail);
                }
                push_line(&mut lines, String::new(), Tone::Spacer);
            } else {
                push_line(&mut lines, idea.title.clone(), Tone::Plain);
            }
            let ghost ts = self.ideas_view().take(i + 1);
            assert(ts.drop_last() =~= self.ideas_view().take(i as int));
            assert(ts.last() == idea.pair());
            assert(line_views(lines@) =~= before + idea_block(idea.pair(), i == self.active_index));
            i = i + 1;
        }
        assert(self.ideas_view().take(i as int) =~= self.ideas_view());
        lines
    }
}

} // verus!
