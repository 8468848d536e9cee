//! A cursor that moves by whole steps or not at all, and the same cursor
//! with a scroll offset that takes over where the cursor cannot move.

use vstd::prelude::*;
use crate::pos::index_add;

verus! {

/// A rectangle given by its top left corner and its size.
#[derive(Clone, Copy, Debug, PartialEq, Eq)]
pub struct Rect {
    pub x: u16,
    pub y: u16,
    pub w: u16,
    pub h: u16,
}

impl Rect {
    pub fn new(x: u16, y: u16, w: u16, h: u16) -> (r: Self)
        ensures
            r == (Rect { x, y, w, h }),
    {
        Rect { x, y, w, h }
    }
}

/// The number of rows that `len` lines take up in a rectangle `h` rows high.
pub open spec fn rows_used(len: usize, h: u16) -> u16 {
    if len < h {
        len as u16
    } else {
        h
    }
}

/// The middle row of `max` rows that begin at `min`; it stops at the last
/// screen coordinate.
pub open spec fn middle(min: u16, max: u16) -> u16 {
    let half = if max > 0 { (max - 1) / 2 } else { 0 };
    if min + half <= u16::MAX {
        (min + half) as u16
    } else {
        u16::MAX
    }
}

/// A cursor on one of the rows `min .. min + max`.
#[derive(Clone, Copy, Debug, PartialEq, Eq)]
pub struct Cursor {
    /// The row the cursor is on.
    pub cur: u16,
    /// The first row.
    pub min: u16,
    /// The number of rows.
    pub max: u16,
}

impl Cursor {
    /// The cursor is on one of its rows, or on the first row where it has
    /// none.
    pub open spec fn wf(self) -> bool {
        self.min <= self.cur && (self.cur < self.min + self.max || (self.max == 0 && self.cur
            == self.min))
    }

    /// A step up fits.
    pub open spec fn can_move_up(self, step: u16) -> bool {
        self.min + step <= self.cur
    }

    /// A step down fits: it ends on one of the rows, and on the screen.
    pub open spec fn can_move_down(self, step: u16) -> bool {
        self.cur + step + 1 <= self.min + self.max && self.cur + step <= u16::MAX
    }

    /// The cursor after a step up: moved if the whole step fits.
    pub open spec fn up(self, step: u16) -> Cursor {
        if self.can_move_up(step) {
            Cursor { cur: (self.cur - step) as u16, ..self }
        } else {
            self
        }
    }

    /// The cursor after a step down: moved if the whole step fits.
    pub open spec fn down(self, step: u16) -> Cursor {
        if self.can_move_down(step) {
            Cursor { cur: (self.cur + step) as u16, ..self }
        } else {
            self
        }
    }

    pub open spec fn spec_index(self) -> usize {
        if self.cur >= self.min {
            (self.cur - self.min) as usize
        } else {
            0
        }
    }

    /// The cursor on the first row of `rect`, with as many rows as `len`
    /// lines take up in it.
    pub fn new(len: usize, rect: &Rect) -> (r: Self)
        ensures
            r == (Cursor { cur: rect.y, min: rect.y, max: rows_used(len, rect.h) }),
            r.wf(),
    {
        let max = if len < rect.h as usize { len as u16 } else { rect.h };
        Cursor { min: rect.y, cur: rect.y, max }
    }

    /// Takes the rows from `rect` and `len` and puts the cursor on the middle
    /// one.
    pub fn resize(&mut self, len: usize, rect: &Rect)
        ensures
            final(self).min == rect.y,
            final(self).max == rows_used(len, rect.h),
            final(self).cur == middle(rect.y, rows_used(len, rect.h)),
            rect.y + rect.h <= u16::MAX ==> final(self).wf(),
    {
        self.min = rect.y;
        self.max = if len < rect.h as usize { len as u16 } else { rect.h };
        self.cur = self.min.saturating_add(self.max.saturating_sub(1) / 2);
    }

    /// Moves up by `step` if the whole step fits; says whether it did.
    pub fn moveup(&mut self, step: u16) -> (moved: bool)
        ensures
            moved == old(self).can_move_up(step),
            *final(self) == old(self).up(step),
            old(self).wf() ==> final(self).wf(),
    {
        if (self.min as u32) + (step as u32) <= self.cur as u32 {
            self.cur -= step;
            true
        } else {
            false
        }
    }

    /// Moves down by `step` if the whole step fits; says whether it did.
    pub fn movedown(&mut self, step: u16) -> (moved: bool)
        ensures
            moved == old(self).can_move_down(step),
            *final(self) == old(self).down(step),
            old(self).wf() ==> final(self).wf(),
    {
        if (self.cur as u32) + (step as u32) + 1 <= (self.min as u32) + (self.max as u32)
            && self.cur as u32 + step as u32 <= 0xffff {
            self.cur += step;
            true
        } else {
            false
        }
    }

    pub fn getcursor(&self) -> (r: u16)
        ensures
            r == self.cur,
    {
        self.cur
    }

    pub fn getmaxcursor(&self) -> (r: u16)
        ensures
            r == self.max,
    {
        self.max
    }

    /// The row of the cursor counted from its first row.
    pub fn getindex(&self) -> (r: usize)
        ensures
            r == self.spec_index(),
    {
        self.cur.saturating_sub(self.min) as usize
    }
}

/// A cursor over `len` lines of which its rows show a window that begins at
/// `scroll`.
#[derive(Clone, Copy, Debug, PartialEq, Eq)]
pub struct ScrollingCursor {
    pub cursor: Cursor,
    pub scroll: usize,
    pub maxscroll: usize,
}

impl ScrollingCursor {
    pub open spec fn wf(self) -> bool {
        self.cursor.wf() && self.scroll <= self.maxscroll
    }

    pub open spec fn spec_index(self) -> int {
        self.scroll + self.cursor.spec_index()
    }

    /// The state after a step up: the cursor moves if the whole step fits,
    /// else the window does if the whole step fits there, else nothing does.
    pub open spec fn up(self, step: u16) -> ScrollingCursor {
        if self.cursor.can_move_up(step) {
            ScrollingCursor { cursor: self.cursor.up(step), ..self }
        } else if step <= self.scroll {
            ScrollingCursor { scroll: (self.scroll - step) as usize, ..self }
        } else {
            self
        }
    }

    /// The state after a step down, in the same way.
    pub open spec fn down(self, step: u16) -> ScrollingCursor {
        if self.cursor.can_move_down(step) {
            ScrollingCursor { cursor: self.cursor.down(step), ..self }
        } else if self.scroll + step <= self.maxscroll {
            ScrollingCursor { scroll: (self.scroll + step) as usize, ..self }
        } else {
            self
        }
    }

    /// The cursor on the first row of `rect` and on the first of `len` lines.
    pub fn new(len: usize, rect: &Rect) -> (r: Self)
        ensures
            r.cursor == (Cursor { cur: rect.y, min: rect.y, max: rows_used(len, rect.h) }),
            r.scroll == 0,
            r.maxscroll == len - rows_used(len, rect.h),
            r.wf(),
    {
        let cursor = Cursor::new(len, rect);
        ScrollingCursor { scroll: 0, maxscroll: len - (cursor.max as usize), cursor }
    }

    /// Takes the rows from `rect` and `len`, puts the cursor on the middle
    /// one, and keeps the scroll offset as far as the new length allows.
    pub fn resize(&mut self, len: usize, rect: &Rect)
        ensures
            final(self).cursor.min == rect.y,
            final(self).cursor.max == rows_used(len, rect.h),
            final(self).cursor.cur == middle(rect.y, rows_used(len, rect.h)),
            final(self).maxscroll == len - rows_used(len, rect.h),
            final(self).scroll == (if old(self).scroll < final(self).maxscroll {
                old(self).scroll
            } else {
                final(self).maxscroll
            }),
            rect.y + rect.h <= u16::MAX ==> final(self).wf(),
    {
        self.cursor.resize(len, rect);
        self.maxscroll = len - (self.cursor.max as usize);
        if self.scroll > self.maxscroll {
            self.scroll = self.maxscroll;
        }
    }

    /// Moves the cursor up by `step`, or, where that does not fit, the window;
    /// says whether either moved.
    pub fn moveup(&mut self, step: u16) -> (moved: bool)
        ensures
            *final(self) == old(self).up(step),
            moved == (old(self).cursor.can_move_up(step) || step <= old(self).scroll),
            old(self).wf() ==> final(self).wf(),
    {
        let scrollstep = step as usize;
        if self.cursor.moveup(step) {
            true
        } else if scrollstep <= self.scroll {
            self.scroll -= scrollstep;
            true
        } else {
            false
        }
    }

    /// Moves the cursor down by `step`, or, where that does not fit, the
    /// window; says whether either moved.
    pub fn movedown(&mut self, step: u16) -> (moved: bool)
        ensures
            *final(self) == old(self).down(step),
            moved == (old(self).cursor.can_move_down(step) || old(self).scroll + step <= old(
                self
            ).maxscroll),
            old(self).wf() ==> final(self).wf(),
    {
        let scrollstep = step as usize;
        if self.cursor.movedown(step) {
            true
        } else if scrollstep <= self.maxscroll && self.scroll <= self.maxscroll - scrollstep {
            self.scroll += scrollstep;
            true
        } else {
            false
        }
    }

    pub fn getcursor(&self) -> (r: u16)
        ensures
            r == self.cursor.cur,
    {
        self.cursor.cur
    }

    pub fn getscroll(&self) -> (r: usize)
        ensures
            r == self.scroll,
    {
        self.scroll
    }

    pub fn getscreenstart(&self) -> (r: u16)
        ensures
            r == self.cursor.min,
    {
        self.cursor.min
    }

    /// The line under the cursor. It stops at the largest `usize`.
    pub fn getindex(&self) -> (r: usize)
        ensures
            r == index_add(self.spec_index(), 0),
    {
        self.scroll.saturating_add(self.cursor.getindex())
    }

    /// The first line shown and the one just past the last shown.
    pub fn getdisplayrange(&self) -> (r: (usize, usize))
        ensures
            r.0 == self.scroll,
            r.1 == index_add(self.scroll as int, self.cursor.max as int),
    {
        (self.scroll, self.scroll.saturating_add(self.cursor.max as usize))
    }
}

/// The line under a valid cursor that has rows is one of the lines:
/// `maxscroll` and the rows add up to their number.
pub proof fn index_within_lines(c: ScrollingCursor, len: usize)
    requires
        c.wf(),
        c.maxscroll + c.cursor.max == len,
        c.cursor.max > 0,
    ensures
        c.spec_index() < len,
{
}

} // verus!
