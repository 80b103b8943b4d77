//! Greedy word wrapping of a flat string into fixed-width display lines, and
//! the caret position that goes with it.
//!
//! Every produced line is its words, each followed by one separator space. A
//! word is placed on the current line when the line's length plus the word's
//! length stays within the width; otherwise the current line is flushed and
//! the word starts a new one. A word longer than the width is never split.
use vstd::prelude::*;
use crate::text::{is_space, char_is_space};

verus! {

/// Splits `s` into the words already completed and the word still being read,
/// scanning left to right.
pub open spec fn split_words(s: Seq<char>) -> (Seq<Seq<char>>, Seq<char>)
    decreases s.len(),
{
    if s.len() == 0 {
        (Seq::empty(), Seq::empty())
    } else {
        let (done, cur) = split_words(s.drop_last());
        if is_space(s.last()) {
            if cur.len() == 0 {
                (done, cur)
            } else {
                (done.push(cur), Seq::empty())
            }
        } else {
            (done, cur.push(s.last()))
        }
    }
}

/// The words of `s`: its maximal runs of non-space characters, in order.
pub open spec fn words(s: Seq<char>) -> Seq<Seq<char>> {
    let (done, cur) = split_words(s);
    if cur.len() == 0 {
        done
    } else {
        done.push(cur)
    }
}

/// A word placed on a line: its characters and one separator space.
pub open spec fn spaced(w: Seq<char>) -> Seq<char> {
    w.push(' ')
}

/// Places the words `ws` greedily: the lines flushed so far and the current line.
pub open spec fn place(width: int, ws: Seq<Seq<char>>) -> (Seq<Seq<char>>, Seq<char>)
    decreases ws.len(),
{
    if ws.len() == 0 {
        (Seq::empty(), Seq::empty())
    } else {
        let (done, line) = place(width, ws.drop_last());
        let w = ws.last();
        if line.len() + w.len() > width {
            (done.push(line), spaced(w))
        } else {
            (done, line + spaced(w))
        }
    }
}

/// The display lines of `t` at `width`: the flushed lines and then the last one,
/// which is always emitted, even when empty.
pub open spec fn wrapped(width: int, t: Seq<char>) -> Seq<Seq<char>> {
    let (done, line) = place(width, words(t));
    done.push(line)
}

/// The caret's (column, row) after the last word of `t`. The column is one past
/// the candidate length of the last word's line (the line before it plus the
/// word), or 0 when that reaches the width; the row is the number of lines
/// flushed before the last line. Text without words puts it at (0, 0).
pub open spec fn cursor_of(width: int, t: Seq<char>) -> (int, int) {
    let ws = words(t);
    if ws.len() == 0 {
        (0, 0)
    } else {
        let x = place(width, ws.drop_last()).1.len() + ws.last().len();
        (col_after(width, x), place(width, ws).0.len() as int)
    }
}

/// The state of one left-to-right pass over the text.
struct Flow {
    lines: Vec<String>,
    line: String,
    /// The length of `line`, held at `width + 1`.
    line_len: usize,
    /// The word being read.
    word: String,
    /// The length of `word`, held at `width + 1`.
    word_len: usize,
    /// The caret column after the last word placed.
    col: u16,
}

impl Flow {
    spec fn lines_view(&self) -> Seq<Seq<char>> {
        self.lines@.map_values(|l: String| l@)
    }

    /// Places the pending word.
    fn place_word(&mut self, width: u16, Ghost(ws): Ghost<Seq<Seq<char>>>)
        requires
            (old(self).lines_view(), old(self).line@) == place(width as int, ws),
            old(self).line_len == held(old(self).line@.len(), width as int),
            old(self).word_len == held(old(self).word@.len(), width as int),
        ensures
            (final(self).lines_view(), final(self).line@) == place(
                width as int,
                ws.push(old(self).word@),
            ),
            final(self).line_len == held(final(self).line@.len(), width as int),
            final(self).word@.len() == 0,
            final(self).word_len == 0,
            final(self).col == col_after(
                width as int,
                old(self).line@.len() + old(self).word@.len(),
            ),
    {
        let ghost ws2 = ws.push(self.word@);
        assert(ws2.drop_last() =~= ws);
        let wl = self.word_len;
        let fits = wl <= width as usize && self.line_len <= width as usize - wl;
        let full = wl >= width as usize || self.line_len >= width as usize - wl;
        self.col = if full {
            0
        } else {
            (self.line_len + wl + 1) as u16
        };
        let mut w = String::new();
        std::mem::swap(&mut w, &mut self.word);
        w.push(' ');
        if fits {
            self.line.append(w.as_str());
            self.line_len = self.line_len + wl + 1;
        } else {
            let mut done = String::new();
            std::mem::swap(&mut done, &mut self.line);
            self.lines.push(done);
            self.line = w;
            self.line_len = if wl > width as usize {
                wl
            } else {
                wl + 1
            };
        }
        self.word_len = 0;
        assert(self.lines_view() =~= place(width as int, ws2).0);
    }
}

/// Runs the greedy placement over all of `text`.
fn flow(width: u16, text: &str) -> (f: Flow)
    ensures
        (f.lines_view(), f.line@) == place(width as int, words(text@)),
        words(text@).len() > 0 ==> f.col == cursor_of(width as int, text@).0,
        f.line@.len() == 0 <==> words(text@).len() == 0,
        f.line_len == held(f.line@.len(), width as int),
{
    let mut f = Flow {
        lines: Vec::new(),
        line: String::new(),
        line_len: 0,
        word: String::new(),
        word_len: 0,
        col: 0,
    };
    proof {
        assert(f.lines_view() =~= Seq::<Seq<char>>::empty());
        assert(text@.take(0) =~= Seq::<char>::empty());
    }
    for c in it: text.chars()
        invariant
            it.seq() == text@,
            (f.lines_view(), f.line@) == place(
                width as int,
                split_words(text@.take(it.index() as int)).0,
            ),
            f.word@ == split_words(text@.take(it.index() as int)).1,
            f.line_len == held(f.line@.len(), width as int),
            f.word_len == held(f.word@.len(), width as int),
            split_words(text@.take(it.index() as int)).0.len() > 0 ==> f.col == col_after(
                width as int,
                place(
                    width as int,
                    split_words(text@.take(it.index() as int)).0.drop_last(),
                ).1.len() + split_words(text@.take(it.index() as int)).0.last().len(),
            ),
    {
        let ghost i = it.index();
        assert(text@.take(i + 1).drop_last() =~= text@.take(i as int));
        assert(text@.take(i + 1).last() == c);
        if char_is_space(c) {
            if f.word_len > 0 {
                f.place_word(width, Ghost(split_words(text@.take(i as int)).0));
                assert(split_words(text@.take(i + 1)).0.drop_last() =~= split_words(
                    text@.take(i as int),
                ).0);
            }
        } else {
            f.word.push(c);
            if f.word_len <= width as usize {
                f.word_len = f.word_len + 1;
            }
        }
    }
    assert(text@.take(text@.len() as int) =~= text@);
    if f.word_len > 0 {
        let ghost done = split_words(text@).0;
        f.place_word(width, Ghost(done));
        assert(words(text@).drop_last() =~= done);
    }
    assert(f.line@.len() == 0 <==> words(text@).len() == 0);
    f
}

/// Wraps `text` into display lines, every word followed by one space; a line
/// holds more than `width` characters before its last space only when it is a
/// single longer word.
pub fn wrap(width: u16, text: &str) -> (r: Vec<String>)
    requires
        width > 0,
    ensures
        r@.map_values(|l: String| l@) == wrapped(width as int, text@),
{
    let f = flow(width, text);
    let mut lines = f.lines;
    lines.push(f.line);
    assert(lines@.map_values(|l: String| l@) =~= wrapped(width as int, text@));
    lines
}

/// The caret's (column, row) after the last word of `text` wrapped at `width`.
pub fn cursor_position(width: u16, text: &str) -> (r: (u16, u16))
    requires
        width > 0,
        wrapped(width as int, text@).len() <= u16::MAX + 1,
    ensures
        r.0 == cursor_of(width as int, text@).0,
        r.1 == cursor_of(width as int, text@).1,
{
    let f = flow(width, text);
    let row = f.lines.len() as u16;
    if f.line_len == 0 {
        (0, row)
    } else {
        (f.col, row)
    }
}

/// A length, held at `width + 1`: enough to compare it against the width.
pub open spec fn held(n: nat, width: int) -> int {
    if n > width + 1 {
        width + 1
    } else {
        n as int
    }
}

/// The caret column for a word whose candidate length is `x`.
pub open spec fn col_after(width: int, x: nat) -> int {
    if x >= width {
        0
    } else {
        (x + 1) as int
    }
}


/// No character of `w` is white space.
pub open spec fn spaceless(w: Seq<char>) -> bool {
    forall|k: int| 0 <= k < w.len() ==> !is_space(#[trigger] w[k])
}

/// The words of every line, one line after another.
pub open spec fn line_words(lines: Seq<Seq<char>>) -> Seq<Seq<char>>
    decreases lines.len(),
{
    if lines.len() == 0 {
        Seq::empty()
    } else {
        line_words(lines.drop_last()) + words(lines.last())
    }
}

proof fn lemma_split_spaceless(a: Seq<char>, v: Seq<char>)
    requires
        spaceless(v),
    ensures
        split_words(a + v) == (split_words(a).0, split_words(a).1 + v),
    decreases v.len(),
{
    if v.len() == 0 {
        assert(a + v =~= a);
        assert(split_words(a).1 + v =~= split_words(a).1);
    } else {
        let u = v.drop_last();
        assert(spaceless(u));
        lemma_split_spaceless(a, u);
        assert((a + v).drop_last() =~= a + u);
        assert((a + v).last() == v.last());
        assert(split_words(a).1 + u.push(v.last()) =~= split_words(a).1 + v);
        assert(u.push(v.last()) =~= v);
    }
}

/// Appending a word and its separator to text that ends between words adds
/// exactly that word.
proof fn lemma_words_spaced(a: Seq<char>, w: Seq<char>)
    requires
        a.len() == 0 || is_space(a.last()),
        w.len() > 0,
        spaceless(w),
    ensures
        words(a + spaced(w)) == words(a).push(w),
{
    assert(split_words(a).1.len() == 0);
    lemma_split_spaceless(a, w);
    assert((a + spaced(w)).drop_last() =~= a + w);
    assert((a + spaced(w)).last() == ' ');
    assert(split_words(a).1 + w =~= w);
}

proof fn lemma_words_shape(t: Seq<char>)
    ensures
        forall|i: int|
            0 <= i < split_words(t).0.len() ==> #[trigger] split_words(t).0[i].len() > 0
                && spaceless(split_words(t).0[i]),
        spaceless(split_words(t).1),
        forall|i: int|
            0 <= i < words(t).len() ==> #[trigger] words(t)[i].len() > 0 && spaceless(
                words(t)[i],
            ),
    decreases t.len(),
{
    if t.len() > 0 {
        lemma_words_shape(t.drop_last());
        let cur = split_words(t.drop_last()).1;
        assert(forall|k: int| 0 <= k < cur.len() ==> cur.push(t.last())[k] == cur[k]);
    }
}

proof fn lemma_place_shape(width: int, ws: Seq<Seq<char>>)
    requires
        width >= 0,
        forall|i: int| 0 <= i < ws.len() ==> #[trigger] ws[i].len() > 0 && spaceless(ws[i]),
    ensures
        line_words(place(width, ws).0) + words(place(width, ws).1) == ws,
        place(width, ws).1.len() == 0 || place(width, ws).1.last() == ' ',
        forall|i: int|
            0 <= i < place(width, ws).0.len() ==> line_ok(width, #[trigger] place(width, ws).0[i]),
        line_ok(width, place(width, ws).1),
    decreases ws.len(),
{
    if ws.len() == 0 {
        assert(words(Seq::empty()) =~= Seq::<Seq<char>>::empty());
        assert(line_words(Seq::empty()) + words(Seq::empty()) =~= ws);
    } else {
        let pre = ws.drop_last();
        lemma_place_shape(width, pre);
        let (done, line) = place(width, pre);
        let w = ws.last();
        assert(ws[ws.len() - 1] == w);
        lemma_words_spaced(line, w);
        assert(Seq::<char>::empty() + spaced(w) =~= spaced(w));
        lemma_words_spaced(Seq::empty(), w);
        assert(words(Seq::<char>::empty()) =~= Seq::<Seq<char>>::empty());
        assert(spaced(w).last() == ' ');
        assert((line + spaced(w)).last() == ' ');
        if line.len() + w.len() > width {
            let d2 = done.push(line);
            assert(d2.drop_last() =~= done);
            assert(line_words(d2) == line_words(done) + words(line));
            assert(words(spaced(w)) =~= seq![w]);
            assert(line_words(d2) + words(spaced(w)) =~= ws);
            assert(line_ok(width, spaced(w)));
        } else {
            assert(ws =~= pre.push(w));
            assert(line_words(done) + words(line).push(w) =~= (line_words(done) + words(
                line,
            )).push(w));
            assert((line + spaced(w)).len() == line.len() + w.len() + 1);
            assert(line_ok(width, line + spaced(w)));
        }
    }
}

/// A line fits: it is empty or ends with its separator space, and it holds a
/// single word or at most `width` characters before that space.
pub open spec fn line_ok(width: int, l: Seq<char>) -> bool {
    &&& (l.len() == 0 || l.last() == ' ')
    &&& (l.len() <= width + 1 || words(l).len() == 1)
}

/// The wrapped lines are never empty, and their words, read line after line,
/// are the words of the text: none dropped, repeated or reordered.
pub proof fn lemma_wrap_keeps_words(width: int, t: Seq<char>)
    requires
        width > 0,
    ensures
        wrapped(width, t).len() > 0,
        line_words(wrapped(width, t)) == words(t),
{
    lemma_words_shape(t);
    lemma_place_shape(width, words(t));
    assert(wrapped(width, t).drop_last() =~= place(width, words(t)).0);
}

/// Every wrapped line is empty or ends with one separator space, and only a
/// line that holds a single word has more than `width` characters before it.
pub proof fn lemma_wrap_width(width: int, t: Seq<char>)
    requires
        width > 0,
    ensures
        forall|i: int|
            0 <= i < wrapped(width, t).len() ==> line_ok(width, #[trigger] wrapped(width, t)[i]),
{
    lemma_words_shape(t);
    lemma_place_shape(width, words(t));
    let (done, line) = place(width, words(t));
    assert forall|i: int| 0 <= i < wrapped(width, t).len() implies line_ok(
        width,
        #[trigger] wrapped(width, t)[i],
    ) by {
        if i < done.len() {
            assert(wrapped(width, t)[i] == done[i]);
        }
    }
}

/// The caret's row is the index of the last wrapped line.
pub proof fn lemma_cursor_row(width: int, t: Seq<char>)
    requires
        width > 0,
    ensures
        cursor_of(width, t).1 == wrapped(width, t).len() - 1,
{
}

} // verus!
