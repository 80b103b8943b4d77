//! A text field's contents and width, laid out for display.
use vstd::prelude::*;
use vstd::view::View as _;
use vstd::string::StringExecFns;
use crate::wrap::{wrap, cursor_position, wrapped, cursor_of};

verus! {

/// The text of one input field and the width it is shown at.
pub struct View {
    pub width: u16,
    pub buffer: String,
    pub cursor_position: (u16, u16),
}

impl View {
    /// An empty field of width 0; give it a width before laying it out.
    pub fn new() -> (r: Self)
        ensures
            r.width == 0,
            r.buffer@ == Seq::<char>::empty(),
            r.cursor_position == (0u16, 0u16),
    {
        View { width: 0, buffer: String::new(), cursor_position: (0, 0) }
    }

    pub fn set_width(&mut self, width: u16)
        ensures
            final(self).width == width,
            final(self).buffer@ == old(self).buffer@,
            final(self).cursor_position == old(self).cursor_position,
    {
        self.width = width;
    }

    pub fn set_buffer(&mut self, buffer: &str)
        ensures
            final(self).width == old(self).width,
            final(self).buffer@ == buffer@,
            final(self).cursor_position == old(self).cursor_position,
    {
        self.buffer = String::from_str(buffer);
    }

    /// The field's text wrapped at its width.
    pub fn build(&mut self) -> (r: Vec<String>)
        requires
            old(self).width > 0,
        ensures
            *final(self) == *old(self),
            r@.map_values(|l: String| l@) == wrapped(old(self).width as int, old(self).buffer@),
    {
        wrap(self.width, self.buffer.as_str())
    }

    /// Where the caret stands after the field's last word: (column, row).
    pub fn get_last_word_cursor_position(&mut self) -> (r: (u16, u16))
        requires
            old(self).width > 0,
            wrapped(old(self).width as int, old(self).buffer@).len() <= u16::MAX + 1,
        ensures
            *final(self) == *old(self),
            r.0 == cursor_of(old(self).width as int, old(self).buffer@).0,
            r.1 == cursor_of(old(self).width as int, old(self).buffer@).1,
    {
        cursor_position(self.width, self.buffer.as_str())
    }
}

} // verus!
