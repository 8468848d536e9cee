//! A plain view on a text: the rows that its lines wrap into, a window of
//! `height` rows that begins at `scroll`, and a cursor on one of the rows of
//! the window. The cursor moves within the window, and the window moves over
//! the rows where the cursor stands at its edge.

use vstd::prelude::*;
use crate::cfg::Rgb;
use crate::text::{wraplist, wrap_all};

verus! {

/// The colours of a line.
#[derive(Clone, Copy, Debug, PartialEq, Eq)]
pub struct Colors {
    pub foreground: Rgb,
    pub background: Rgb,
}

/// A view on a text.
#[derive(Clone, Debug, PartialEq, Eq)]
pub struct TextView {
    /// The lines with their colours.
    pub source_text: Vec<(Colors, String)>,
    /// The rows, each with the index of its line.
    pub display_text: Vec<(usize, String)>,
    pub scroll: u16,
    pub width: u16,
    pub height: u16,
    pub cursor_x: u16,
    pub cursor_y: u16,
}

impl TextView {
    /// The rows are those of the lines at the width of the view.
    pub open spec fn wf(&self) -> bool {
        self.display_text.deep_view() == wrap_all(
            self.source_text@.map_values(|p: (Colors, String)| p.1@),
            self.width as nat,
            self.source_text.len() as nat,
        )
    }

    /// The cursor is on a row of the window, and the window lies within
    /// the rows or begins at the first of them.
    pub open spec fn in_view(&self) -> bool {
        &&& self.cursor_y < self.height || (self.height == 0 && self.cursor_y == 0)
        &&& self.scroll + self.height <= self.display_text.len() || self.scroll == 0
    }

    /// The view after a step down: the cursor moves where it is not on the
    /// last row of the window, else the window does where rows are left
    /// below it.
    pub open spec fn down(&self) -> (u16, u16) {
        if self.cursor_y + 1 < self.height {
            ((self.cursor_y + 1) as u16, self.scroll)
        } else if self.scroll + self.height < self.display_text.len() && self.scroll < u16::MAX {
            (self.cursor_y, (self.scroll + 1) as u16)
        } else {
            (self.cursor_y, self.scroll)
        }
    }

    /// The view after a step up.
    pub open spec fn up(&self) -> (u16, u16) {
        if self.cursor_y > 0 {
            ((self.cursor_y - 1) as u16, self.scroll)
        } else if self.scroll > 0 {
            (self.cursor_y, (self.scroll - 1) as u16)
        } else {
            (self.cursor_y, self.scroll)
        }
    }

    /// A view on the given lines, the cursor at the top left.
    pub fn new(source: Vec<(Colors, String)>, width: u16, height: u16) -> (r: Self)
        ensures
            r.source_text == source,
            r.width == width,
            r.height == height,
            r.scroll == 0,
            r.cursor_x == 0,
            r.cursor_y == 0,
            r.wf(),
            r.in_view(),
    {
        let wrapped = wraplist(&source, width);
        TextView {
            source_text: source,
            display_text: wrapped,
            width,
            height,
            cursor_x: 0,
            cursor_y: 0,
            scroll: 0,
        }
    }

    /// Takes a new size: the lines are wrapped to the new width, and cursor
    /// and window are brought back into them.
    pub fn resize(&mut self, width: u16, height: u16)
        ensures
            final(self).source_text == old(self).source_text,
            final(self).width == width,
            final(self).height == height,
            final(self).cursor_x == old(self).cursor_x,
            final(self).cursor_y == (if old(self).cursor_y < height {
                old(self).cursor_y
            } else if height > 0 {
                (height - 1) as u16
            } else {
                0
            }),
            final(self).scroll == (if old(self).scroll + height <= final(self).display_text.len() {
                old(self).scroll as int
            } else if final(self).display_text.len() >= height {
                final(self).display_text.len() - height
            } else {
                0
            }),
            final(self).wf(),
            final(self).in_view(),
    {
        self.width = width;
        self.height = height;
        self.display_text = wraplist(&self.source_text, width);
        if self.cursor_y >= height {
            self.cursor_y = height.saturating_sub(1);
        }
        let len = self.display_text.len();
        if self.scroll as usize + height as usize > len {
            self.scroll = if len >= height as usize {
                (len - height as usize) as u16
            } else {
                0
            };
        }
    }

    pub fn move_cursor_down(&mut self)
        ensures
            (final(self).cursor_y, final(self).scroll) == old(self).down(),
            final(self).source_text == old(self).source_text,
            final(self).display_text == old(self).display_text,
            final(self).width == old(self).width,
            final(self).height == old(self).height,
            final(self).cursor_x == old(self).cursor_x,
            old(self).in_view() ==> final(self).in_view(),
    {
        if (self.cursor_y as u32) + 1 < self.height as u32 {
            self.cursor_y += 1;
        } else if (self.scroll as usize) + (self.height as usize) < self.display_text.len()
            && self.scroll < 0xffff {
            self.scroll += 1;
        }
    }

    pub fn move_cursor_up(&mut self)
        ensures
            (final(self).cursor_y, final(self).scroll) == old(self).up(),
            final(self).source_text == old(self).source_text,
            final(self).display_text == old(self).display_text,
            final(self).width == old(self).width,
            final(self).height == old(self).height,
            final(self).cursor_x == old(self).cursor_x,
            old(self).in_view() ==> final(self).in_view(),
    {
        if self.cursor_y > 0 {
            self.cursor_y -= 1;
        } else if self.scroll > 0 {
            self.scroll -= 1;
        }
    }

    /// The row under the cursor, if there is one.
    pub fn row(&self) -> (r: Option<usize>)
        ensures
            r == (if self.scroll + self.cursor_y < self.display_text.len() {
                Some((self.scroll + self.cursor_y) as usize)
            } else {
                None
            }),
    {
        let i = self.scroll as usize + self.cursor_y as usize;
        if i < self.display_text.len() {
            Some(i)
        } else {
            None
        }
    }
}

} // verus!
