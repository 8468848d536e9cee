//! Screen geometry: inclusive coordinate ranges, rectangles, and the pairing
//! of a drawing region with the inner region in which a cursor moves freely.

use vstd::prelude::*;

verus! {

/// Narrows a length to a screen coordinate; a length that does not fit gives 0.
pub fn u16_or_0(u: usize) -> (r: u16)
    ensures
        u <= u16::MAX ==> r == u,
        u > u16::MAX ==> r == 0,
{
    if u <= 0xffff {
        u as u16
    } else {
        0
    }
}

/// A run of screen cells along one axis, from `start` to `end`.
/// `end` is the coordinate just past the last cell, and a cursor may rest on it.
#[derive(Clone, Copy, Debug, PartialEq, Eq)]
pub struct ScreenRange {
    pub start: u16,
    pub end: u16,
}

impl ScreenRange {
    /// The range is ordered.
    pub open spec fn wf(self) -> bool {
        self.start <= self.end
    }

    /// Number of cells; 0 for a range whose ends are out of order.
    pub open spec fn spec_len(self) -> nat {
        if self.start <= self.end {
            (self.end - self.start) as nat
        } else {
            0
        }
    }

    pub open spec fn spec_contains(self, n: u16) -> bool {
        self.start <= n <= self.end
    }

    /// The largest scroll offset for data of `dlen` items shown in this
    /// range: the number of items that do not fit.
    pub open spec fn spec_max_scroll(self, dlen: usize) -> usize {
        if dlen > self.spec_len() {
            (dlen - self.spec_len()) as usize
        } else {
            0
        }
    }

    /// The coordinate just past the last of `dlen` items when the data is
    /// scrolled to its end: the end of the range, or of the data where that
    /// is shorter than the range.
    pub open spec fn spec_data_end(self, dlen: usize) -> u16 {
        if dlen >= self.spec_len() {
            self.end
        } else {
            (self.start + dlen) as u16
        }
    }

    /// The range between two coordinates, whichever order they come in.
    pub fn new(start: u16, end: u16) -> (r: ScreenRange)
        ensures
            r.wf(),
            r.start == (if start > end { end } else { start }),
            r.end == (if start > end { start } else { end }),
    {
        if start > end {
            ScreenRange { start: end, end: start }
        } else {
            ScreenRange { start, end }
        }
    }

    /// The range of `len` cells that begins at `start`. A length that is no
    /// screen coordinate counts as 0, and the end stops at the last coordinate.
    pub fn from_length(start: u16, len: usize) -> (r: ScreenRange)
        ensures
            r.wf(),
            r.start == start,
            len <= u16::MAX && start + len <= u16::MAX ==> r.end == start + len,
            len <= u16::MAX && start + len > u16::MAX ==> r.end == u16::MAX,
            len > u16::MAX ==> r.end == start,
    {
        let len = u16_or_0(len);
        ScreenRange { start, end: start.saturating_add(len) }
    }

    pub fn contains(&self, n: u16) -> (r: bool)
        ensures
            r == self.spec_contains(n),
    {
        self.start <= n && n <= self.end
    }

    pub fn len(&self) -> (r: usize)
        ensures
            r == self.spec_len(),
    {
        self.end.saturating_sub(self.start) as usize
    }

    /// Same as `len`.
    pub fn length(&self) -> (r: usize)
        ensures
            r == self.spec_len(),
    {
        self.len()
    }

    pub fn get_max_scroll(&self, dlen: usize) -> (r: usize)
        ensures
            r == self.spec_max_scroll(dlen),
    {
        dlen.saturating_sub(self.len())
    }

    pub fn get_data_end(&self, dlen: usize) -> (r: u16)
        ensures
            r == self.spec_data_end(dlen),
    {
        if dlen >= self.len() {
            self.end
        } else {
            self.start + (dlen as u16)
        }
    }
}

/// A rectangle of screen cells: its top left corner, width and height.
#[derive(Clone, Copy, Debug, PartialEq, Eq)]
pub struct Screen {
    pub x: u16,
    pub y: u16,
    pub w: u16,
    pub h: u16,
}

/// `a + b`, stopping at the last screen coordinate.
pub open spec fn coord_add(a: u16, b: u16) -> u16 {
    if a + b <= u16::MAX {
        (a + b) as u16
    } else {
        u16::MAX
    }
}

impl Screen {
    pub open spec fn spec_x_rng(self) -> ScreenRange {
        ScreenRange { start: self.x, end: coord_add(self.x, self.w) }
    }

    pub open spec fn spec_y_rng(self) -> ScreenRange {
        ScreenRange { start: self.y, end: coord_add(self.y, self.h) }
    }

    pub open spec fn spec_crop_south(self, step: u16) -> Screen {
        if step < self.h {
            Screen { h: (self.h - step) as u16, ..self }
        } else {
            self
        }
    }

    pub open spec fn spec_crop_east(self, step: u16) -> Screen {
        if step < self.w {
            Screen { w: (self.w - step) as u16, ..self }
        } else {
            self
        }
    }

    pub open spec fn spec_crop_north(self, step: u16) -> Screen {
        if 2 * step < self.spec_y_rng().spec_len() {
            Screen { y: (self.y + step) as u16, h: (self.h - step) as u16, ..self }
        } else {
            self
        }
    }

    pub open spec fn spec_crop_west(self, step: u16) -> Screen {
        if 2 * step < self.spec_x_rng().spec_len() {
            Screen { x: (self.x + step) as u16, w: (self.w - step) as u16, ..self }
        } else {
            self
        }
    }

    /// The rectangle of the given size at the top left of the terminal.
    pub fn origin(w: u16, h: u16) -> (r: Screen)
        ensures
            r == (Screen { x: 0, y: 0, w, h }),
    {
        Screen { x: 0, y: 0, w, h }
    }

    /// Takes `step` rows off the top and then off the bottom.
    pub fn crop_y(&self, step: u16) -> (r: Screen)
        ensures
            r == self.spec_crop_north(step).spec_crop_south(step),
    {
        self.crop_north(step).crop_south(step)
    }

    /// Takes `step` columns off the right and then off the left.
    pub fn crop_x(&self, step: u16) -> (r: Screen)
        ensures
            r == self.spec_crop_east(step).spec_crop_west(step),
    {
        self.crop_east(step).crop_west(step)
    }

    /// Takes `step` rows off the bottom, unless that would leave none.
    pub fn crop_south(&self, step: u16) -> (r: Screen)
        ensures
            r == self.spec_crop_south(step),
    {
        let mut screen = *self;
        if step < screen.h {
            screen.h -= step;
        }
        screen
    }

    /// Takes `step` columns off the right, unless that would leave none.
    pub fn crop_east(&self, step: u16) -> (r: Screen)
        ensures
            r == self.spec_crop_east(step),
    {
        let mut screen = *self;
        if step < screen.w {
            screen.w -= step;
        }
        screen
    }

    /// Takes `step` rows off the top, if fewer than half the rows go.
    pub fn crop_north(&self, step: u16) -> (r: Screen)
        ensures
            r == self.spec_crop_north(step),
    {
        let mut screen = *self;
        if (step as usize) * 2 < screen.get_y_rng().len() {
            screen.y += step;
            screen.h -= step;
        }
        screen
    }

    /// Takes `step` columns off the left, if fewer than half the columns go.
    pub fn crop_west(&self, step: u16) -> (r: Screen)
        ensures
            r == self.spec_crop_west(step),
    {
        let mut screen = *self;
        if (step as usize) * 2 < screen.get_x_rng().len() {
            screen.x += step;
            screen.w -= step;
        }
        screen
    }

    pub fn get_rngs(&self) -> (r: (ScreenRange, ScreenRange))
        ensures
            r.0 == self.spec_x_rng(),
            r.1 == self.spec_y_rng(),
    {
        (self.get_x_rng(), self.get_y_rng())
    }

    /// The columns the rectangle covers.
    pub fn get_x_rng(&self) -> (r: ScreenRange)
        ensures
            r == self.spec_x_rng(),
            r.wf(),
    {
        ScreenRange { start: self.x, end: self.x.saturating_add(self.w) }
    }

    /// The rows the rectangle covers.
    pub fn get_y_rng(&self) -> (r: ScreenRange)
        ensures
            r == self.spec_y_rng(),
            r.wf(),
    {
        ScreenRange { start: self.y, end: self.y.saturating_add(self.h) }
    }
}

/// One axis of a `DataScreen`: the whole range and the part of it in which
/// the cursor moves without scrolling.
#[derive(Clone, Copy, Debug, PartialEq, Eq)]
pub struct DataScreenRange {
    pub inner: ScreenRange,
    pub outer: ScreenRange,
}

/// The inner range that a margin of `spacer` cells leaves of `outer`: the
/// margin comes off both ends, and a margin that would take half the range or
/// more leaves the range whole.
pub open spec fn inset(outer: ScreenRange, spacer: u16) -> ScreenRange {
    if 2 * spacer >= outer.spec_len() {
        outer
    } else {
        ScreenRange { start: (outer.start + spacer) as u16, end: (outer.end - spacer) as u16 }
    }
}

impl DataScreenRange {
    /// Both ranges are ordered and the inner one lies within the outer one.
    pub open spec fn wf(self) -> bool {
        self.outer.start <= self.inner.start <= self.inner.end <= self.outer.end
    }

    /// The largest scroll offset over the outer range.
    pub open spec fn spec_max_scroll(self, dlen: usize) -> usize {
        self.outer.spec_max_scroll(dlen)
    }

    /// Where the data ends in the outer range.
    pub open spec fn spec_data_end(self, dlen: usize) -> u16 {
        self.outer.spec_data_end(dlen)
    }

    /// The outer range with a margin of `spacer` cells.
    pub fn new(outer: &ScreenRange, spacer: u16) -> (r: DataScreenRange)
        ensures
            r.outer == *outer,
            r.inner == inset(*outer, spacer),
            outer.wf() ==> r.wf(),
    {
        let inner = if (spacer as usize) * 2 >= outer.len() {
            *outer
        } else {
            ScreenRange { start: outer.start + spacer, end: outer.end - spacer }
        };
        DataScreenRange { inner, outer: *outer }
    }

    pub fn get_max_scroll(&self, dlen: usize) -> (r: usize)
        ensures
            r == self.spec_max_scroll(dlen),
    {
        self.outer.get_max_scroll(dlen)
    }

    pub fn get_data_end(&self, dlen: usize) -> (r: u16)
        ensures
            r == self.spec_data_end(dlen),
    {
        self.outer.get_data_end(dlen)
    }
}

/// A drawing region together with the region inside its scroll margins.
#[derive(Clone, Copy, Debug, PartialEq, Eq)]
pub struct DataScreen {
    pub inner: Screen,
    pub outer: Screen,
}

impl DataScreen {
    pub open spec fn spec_x_rng(self) -> DataScreenRange {
        DataScreenRange { inner: self.inner.spec_x_rng(), outer: self.outer.spec_x_rng() }
    }

    pub open spec fn spec_y_rng(self) -> DataScreenRange {
        DataScreenRange { inner: self.inner.spec_y_rng(), outer: self.outer.spec_y_rng() }
    }

    /// On both axes the inner range lies within the outer one.
    pub open spec fn wf(self) -> bool {
        self.spec_x_rng().wf() && self.spec_y_rng().wf()
    }

    /// The region `outer` with scroll margins of `x` columns and `y` rows.
    /// On each axis the inner range is the outer one less the margin at both
    /// ends, or the whole outer range where the margin would take half of it
    /// or more.
    pub fn new(outer: &Screen, x: u16, y: u16) -> (r: DataScreen)
        ensures
            r.outer == *outer,
            r.spec_x_rng().inner == inset(outer.spec_x_rng(), x),
            r.spec_y_rng().inner == inset(outer.spec_y_rng(), y),
            r.wf(),
    {
        let xs = DataScreenRange::new(&outer.get_x_rng(), x).inner;
        let ys = DataScreenRange::new(&outer.get_y_rng(), y).inner;
        DataScreen {
            inner: Screen { x: xs.start, y: ys.start, w: xs.end - xs.start, h: ys.end - ys.start },
            outer: *outer,
        }
    }

    pub fn get_x_rng(&self) -> (r: DataScreenRange)
        ensures
            r == self.spec_x_rng(),
    {
        DataScreenRange { inner: self.inner.get_x_rng(), outer: self.outer.get_x_rng() }
    }

    pub fn get_y_rng(&self) -> (r: DataScreenRange)
        ensures
            r == self.spec_y_rng(),
    {
        DataScreenRange { inner: self.inner.get_y_rng(), outer: self.outer.get_y_rng() }
    }
}

} // verus!
