//! A view described by the shape of its bounds: data that fits its range is
//! never scrolled, data that does not is scrolled with or without a margin.
//! The moves are those of `PosCol`, taken over the range and data length that
//! the bounds stand for.

use vstd::prelude::*;
use crate::screen::{ScreenRange, Screen, DataScreenRange};
use crate::pos::{PosCol, index_add};

verus! {

/// Scroll offsets, horizontal then vertical.
#[derive(Clone, Copy, Debug, PartialEq, Eq)]
pub struct ScrollPoint(pub usize, pub usize);

/// A screen cell, column then row.
#[derive(Clone, Copy, Debug, PartialEq, Eq)]
pub struct ScreenPoint(pub u16, pub u16);

/// A size on the screen, width then height.
#[derive(Clone, Copy, Debug, PartialEq, Eq)]
pub struct ScreenSize(pub u16, pub u16);

/// Data indices from the first to just past the second.
#[derive(Clone, Copy, Debug, PartialEq, Eq)]
pub struct DataRange(pub usize, pub usize);

/// One axis of a view: a cursor on the screen and a scroll offset.
#[derive(Clone, Copy, Debug, PartialEq, Eq)]
pub struct ViewColumn {
    pub cursor: u16,
    pub scroll: usize,
}

/// Both axes of a view.
#[derive(Clone, Copy, Debug, PartialEq, Eq)]
pub struct View {
    pub cursor: ScreenPoint,
    pub scroll: ScrollPoint,
}

/// How data relates to the range it is shown in.
#[derive(Clone, Copy, Debug, PartialEq, Eq)]
pub enum BoundType {
    /// The data fits: nothing scrolls.
    NoScroll,
    /// Data of the given length that scrolls at the ends of the range.
    NoSpacer(usize),
    /// Data of the given length that scrolls at the ends of the given inner
    /// range.
    Spacer(ScreenRange, usize),
}

/// A range on the screen and how the data shown in it scrolls.
#[derive(Clone, Copy, Debug, PartialEq, Eq)]
pub struct ViewBound(pub ScreenRange, pub BoundType);

impl Screen {
    /// The columns the rectangle covers.
    pub fn get_x(&self) -> (r: ScreenRange)
        ensures
            r == self.spec_x_rng(),
    {
        self.get_x_rng()
    }

    /// The rows the rectangle covers.
    pub fn get_y(&self) -> (r: ScreenRange)
        ensures
            r == self.spec_y_rng(),
    {
        self.get_y_rng()
    }
}

impl ScreenRange {
    /// The same two numbers as data indices.
    pub fn to_data_range(&self) -> (r: DataRange)
        ensures
            r == DataRange(self.start as usize, self.end as usize),
    {
        DataRange(self.start as usize, self.end as usize)
    }

    /// Index into the data of the item under the cursor of `col`.
    pub fn get_index(&self, col: &ViewColumn) -> (r: usize)
        ensures
            r == index_add(col.spec_col().spec_data_idx(*self), 0),
    {
        col.as_col().data_idx(self)
    }
}

impl View {
    /// The horizontal axis.
    pub fn get_x(&self) -> (r: ViewColumn)
        ensures
            r == (ViewColumn { cursor: self.cursor.0, scroll: self.scroll.0 }),
    {
        ViewColumn { cursor: self.cursor.0, scroll: self.scroll.0 }
    }

    /// The vertical axis.
    pub fn get_y(&self) -> (r: ViewColumn)
        ensures
            r == (ViewColumn { cursor: self.cursor.1, scroll: self.scroll.1 }),
    {
        ViewColumn { cursor: self.cursor.1, scroll: self.scroll.1 }
    }
}

impl ViewBound {
    /// The bounds for data of `len` items shown in `range` with a margin of
    /// `spacer` cells. Data that fits gets the part of the range that it
    /// fills; a margin that would take half the range or more is dropped.
    pub open spec fn spec_new(range: ScreenRange, spacer: u16, len: usize) -> ViewBound {
        if range.spec_len() >= len {
            ViewBound(
                ScreenRange { start: range.start, end: (range.start + len) as u16 },
                BoundType::NoScroll,
            )
        } else if spacer * 2 >= range.spec_len() {
            ViewBound(range, BoundType::NoSpacer(len))
        } else {
            ViewBound(
                range,
                BoundType::Spacer(
                    ScreenRange {
                        start: (range.start + spacer) as u16,
                        end: (range.end - spacer - 1) as u16,
                    },
                    len,
                ),
            )
        }
    }

    /// The range with its inner range: the range itself where there is no
    /// margin.
    pub open spec fn spec_range(self) -> DataScreenRange {
        match self.1 {
            BoundType::Spacer(inner, _) => DataScreenRange { inner, outer: self.0 },
            _ => DataScreenRange { inner: self.0, outer: self.0 },
        }
    }

    /// The length of the data: what fills the range where nothing scrolls.
    pub open spec fn spec_data_len(self) -> usize {
        match self.1 {
            BoundType::NoScroll => self.0.spec_len() as usize,
            BoundType::NoSpacer(l) => l,
            BoundType::Spacer(_, l) => l,
        }
    }

    pub open spec fn spec_max_scroll(self) -> usize {
        self.0.spec_max_scroll(self.spec_data_len())
    }

    pub fn new(screen_range: ScreenRange, spacer: u16, len: usize) -> (r: ViewBound)
        ensures
            r == Self::spec_new(screen_range, spacer, len),
            screen_range.wf() ==> r.spec_range().wf(),
    {
        let length = screen_range.length();
        if length >= len {
            ViewBound(ScreenRange::from_length(screen_range.start, len), BoundType::NoScroll)
        } else if (spacer as usize) * 2 >= length {
            ViewBound(screen_range, BoundType::NoSpacer(len))
        } else {
            let scroll_a = screen_range.start + spacer;
            let scroll_b = screen_range.end - spacer - 1;
            ViewBound(screen_range, BoundType::Spacer(ScreenRange::new(scroll_a, scroll_b), len))
        }
    }

    /// The range with its inner range.
    pub fn range(&self) -> (r: DataScreenRange)
        ensures
            r == self.spec_range(),
    {
        match self.1 {
            BoundType::Spacer(inner, _) => DataScreenRange { inner, outer: self.0 },
            _ => DataScreenRange { inner: self.0, outer: self.0 },
        }
    }

    /// The length of the data.
    pub fn data_len(&self) -> (r: usize)
        ensures
            r == self.spec_data_len(),
    {
        match self.1 {
            BoundType::NoScroll => self.0.len(),
            BoundType::NoSpacer(l) => l,
            BoundType::Spacer(_, l) => l,
        }
    }

    /// The largest scroll offset: 0 where nothing scrolls, else what of the
    /// data does not fit the range.
    pub fn get_max_scroll(&self) -> (r: usize)
        ensures
            r == self.spec_max_scroll(),
            self.1 is NoScroll ==> r == 0,
    {
        self.0.get_max_scroll(self.data_len())
    }

    /// The data shown: where nothing scrolls the two ends of the range, else
    /// the scroll offset and what lies the length of the range after it.
    pub fn get_data_range(&self, col: ViewColumn) -> (r: DataRange)
        ensures
            self.1 is NoScroll ==> r == DataRange(self.0.start as usize, self.0.end as usize),
            !(self.1 is NoScroll) ==> r == DataRange(
                col.scroll,
                index_add(col.scroll as int, self.0.spec_len() as int) as usize,
            ),
    {
        match self.1 {
            BoundType::NoScroll => self.0.to_data_range(),
            _ => DataRange(col.scroll, col.scroll.saturating_add(self.0.length())),
        }
    }
}

impl ViewColumn {
    /// The same state as a `PosCol`.
    pub open spec fn spec_col(self) -> PosCol {
        PosCol { cursor: self.cursor, scroll: self.scroll }
    }

    /// The cursor brought into `[start, end]`.
    pub open spec fn clamped(self, start: u16, end: u16) -> ViewColumn {
        ViewColumn {
            cursor: if self.cursor < start {
                start
            } else if self.cursor > end {
                end
            } else {
                self.cursor
            },
            scroll: self.scroll,
        }
    }

    pub fn as_col(&self) -> (r: PosCol)
        ensures
            r == self.spec_col(),
    {
        PosCol { cursor: self.cursor, scroll: self.scroll }
    }

    /// This vertical axis with `x` as the horizontal one.
    pub fn join_with_x(self, x: ViewColumn) -> (r: View)
        ensures
            r == (View {
                cursor: ScreenPoint(x.cursor, self.cursor),
                scroll: ScrollPoint(x.scroll, self.scroll),
            }),
    {
        View {
            cursor: ScreenPoint(x.cursor, self.cursor),
            scroll: ScrollPoint(x.scroll, self.scroll),
        }
    }

    /// This horizontal axis with `y` as the vertical one.
    pub fn join_with_y(self, y: ViewColumn) -> (r: View)
        ensures
            r == (View {
                cursor: ScreenPoint(self.cursor, y.cursor),
                scroll: ScrollPoint(self.scroll, y.scroll),
            }),
    {
        View {
            cursor: ScreenPoint(self.cursor, y.cursor),
            scroll: ScrollPoint(self.scroll, y.scroll),
        }
    }

    /// Brings the cursor into the inner range of the bounds, or into the
    /// range itself where they have none; says whether it moved.
    pub fn move_into(&mut self, bounds: &ViewBound) -> (changed: bool)
        ensures
            *final(self) == old(self).clamped(
                bounds.spec_range().inner.start,
                bounds.spec_range().inner.end,
            ),
            changed == (*final(self) != *old(self)),
    {
        let inner = bounds.range().inner;
        if self.cursor < inner.start {
            self.cursor = inner.start;
            true
        } else if self.cursor > inner.end {
            self.cursor = inner.end;
            true
        } else {
            false
        }
    }

    /// Moves back by `step`: the cursor down to the inner edge, then the
    /// scroll offset down to 0, then the cursor on to the start of the range.
    /// Says whether anything changed.
    pub fn move_backward(&mut self, bounds: &ViewBound, step: u16) -> (changed: bool)
        ensures
            final(self).spec_col() == old(self).spec_col().backward(bounds.spec_range(), step),
            changed == (*final(self) != *old(self)),
    {
        let mut col = self.as_col();
        let changed = col.move_backward(&bounds.range(), step);
        self.cursor = col.cursor;
        self.scroll = col.scroll;
        changed
    }

    /// Moves forward by `step`: the cursor up to the inner edge, then the
    /// scroll offset up to its maximum, then the cursor on to the end of the
    /// range. Says whether anything changed.
    pub fn move_forward(&mut self, bounds: &ViewBound, step: u16) -> (changed: bool)
        ensures
            final(self).spec_col() == old(self).spec_col().forward(
                bounds.spec_range(),
                bounds.spec_data_len(),
                step,
            ),
            changed == (*final(self) != *old(self)),
    {
        let mut col = self.as_col();
        let changed = col.move_forward(&bounds.range(), bounds.data_len(), step);
        self.cursor = col.cursor;
        self.scroll = col.scroll;
        changed
    }
}

/// Where nothing scrolls, a move leaves the scroll offset alone and keeps the
/// cursor in the range.
pub proof fn no_scroll_moves_cursor_only(col: ViewColumn, bounds: ViewBound, step: u16)
    requires
        bounds.1 is NoScroll,
        bounds.0.start <= col.cursor <= bounds.0.end,
        col.scroll == 0,
    ensures
        col.spec_col().forward(bounds.spec_range(), bounds.spec_data_len(), step).scroll == 0,
        col.spec_col().backward(bounds.spec_range(), step).scroll == 0,
        col.spec_col().forward(bounds.spec_range(), bounds.spec_data_len(), step).cursor == (
        if col.cursor + step < bounds.0.end {
            (col.cursor + step) as u16
        } else {
            bounds.0.end
        }),
        col.spec_col().backward(bounds.spec_range(), step).cursor == (if col.cursor - step
            > bounds.0.start {
            (col.cursor - step) as u16
        } else {
            bounds.0.start
        }),
{
}

} // verus!
