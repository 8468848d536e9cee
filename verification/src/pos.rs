//! The cursor and scroll state of a view. `PosCol` is one axis: a cursor on
//! the screen and a scroll offset into the data. `Pos` pairs two of them.
//!
//! The position in the data that a `PosCol` stands for is its data index,
//! `scroll + (cursor - start)`. A move adds to or takes from that index; how
//! the change is shared between cursor and scroll depends on where the
//! cursor stands relative to the inner range.

use vstd::prelude::*;
use crate::screen::{ScreenRange, Screen, DataScreenRange, DataScreen};

verus! {

/// How much of a step of `k` is used up when only `room` is left:
/// nothing where there is no room.
pub open spec fn take(k: int, room: int) -> int {
    if room <= 0 || k <= 0 {
        0
    } else if k < room {
        k
    } else {
        room
    }
}

/// `a + b`, stopping at the largest `usize`.
pub open spec fn index_add(a: int, b: int) -> int {
    if a + b <= usize::MAX {
        a + b
    } else {
        usize::MAX as int
    }
}

/// One axis of a view.
#[derive(Clone, Copy, Debug, PartialEq, Eq)]
pub struct PosCol {
    /// Screen coordinate of the cursor.
    pub cursor: u16,
    /// Index of the first data item shown.
    pub scroll: usize,
}

impl PosCol {
    /// The state is valid for data of `dlen` items shown in `outer`: the
    /// cursor lies between the start of the range and the end of the data,
    /// and the scroll offset is at most the largest one.
    pub open spec fn wf(self, outer: ScreenRange, dlen: usize) -> bool {
        &&& outer.start <= self.cursor <= outer.spec_data_end(dlen)
        &&& self.scroll <= outer.spec_max_scroll(dlen)
    }

    /// The cursor and the scroll offset are both as far forward as they go.
    pub open spec fn at_end(self, outer: ScreenRange, dlen: usize) -> bool {
        self.cursor == outer.spec_data_end(dlen) && self.scroll == outer.spec_max_scroll(dlen)
    }

    /// The cursor and the scroll offset are both as far back as they go.
    pub open spec fn at_start(self, outer: ScreenRange) -> bool {
        self.cursor == outer.start && self.scroll == 0
    }

    /// Index into the data of the item under the cursor.
    pub open spec fn spec_data_idx(self, rng: ScreenRange) -> int {
        if self.cursor > rng.start {
            self.scroll + (self.cursor - rng.start)
        } else {
            self.scroll as int
        }
    }

    /// The state lies within a row of `len` items shown in `outer`: the
    /// cursor is in the range, the item under it is one of the row or its
    /// end, and a row shorter than the range is not scrolled.
    pub open spec fn within(self, outer: ScreenRange, len: usize) -> bool {
        &&& outer.start <= self.cursor <= outer.end
        &&& self.scroll + (self.cursor - outer.start) <= len
        &&& len < outer.spec_len() ==> self.scroll == 0
    }

    /// The valid state that a move starts from: the state itself where it is
    /// valid, else the state that shows the same item, or the end of the data
    /// where there is no such item, with a scroll offset as near to the old
    /// one as that allows. A cursor past the end of the data comes back onto
    /// the end.
    pub open spec fn settled(self, outer: ScreenRange, dlen: usize) -> PosCol {
        if self.wf(outer, dlen) {
            self
        } else {
            Self::spec_place(
                outer,
                index_add(self.spec_data_idx(outer), 0) as usize,
                dlen,
                self.scroll,
            )
        }
    }

    /// The state after a forward move of `step`. The move starts from the
    /// settled state. The cursor first runs up to the inner edge, then the
    /// scroll offset runs up to its maximum, then the cursor runs on to the
    /// end of the data; each stage uses what the stages before it left of the
    /// step.
    pub open spec fn forward(self, dscr: DataScreenRange, dlen: usize, step: u16) -> PosCol {
        let from = self.settled(dscr.outer, dlen);
        let de = dscr.spec_data_end(dlen) as int;
        let ms = dscr.spec_max_scroll(dlen) as int;
        let edge = if dscr.inner.end < de { dscr.inner.end as int } else { de };
        let d1 = take(step as int, edge - from.cursor);
        let d2 = take(step - d1, ms - from.scroll);
        let d3 = take(step - d1 - d2, de - (from.cursor + d1));
        PosCol { cursor: (from.cursor + d1 + d3) as u16, scroll: (from.scroll + d2) as usize }
    }

    /// The state after a backward move of `step`: the mirror image of
    /// `forward`. The cursor first runs down to the inner edge, then the
    /// scroll offset runs down to 0, then the cursor runs on to the start of
    /// the range.
    pub open spec fn backward(self, dscr: DataScreenRange, step: u16) -> PosCol {
        let start = dscr.outer.start as int;
        let edge = if dscr.inner.start > start { dscr.inner.start as int } else { start };
        let d1 = take(step as int, self.cursor - edge);
        let d2 = take(step - d1, self.scroll as int);
        let d3 = take(step - d1 - d2, (self.cursor - d1) - start);
        PosCol { cursor: (self.cursor - d1 - d3) as u16, scroll: (self.scroll - d2) as usize }
    }

    /// The state brought into a row of `len` items. A state that lies
    /// within the row stays as it is. Of any other the cursor is brought
    /// between the start of the range and the end of the data, and the scroll
    /// offset within its maximum.
    pub open spec fn moved_into(self, dscr: DataScreenRange, len: usize) -> PosCol {
        if self.within(dscr.outer, len) {
            self
        } else {
            let start = dscr.outer.start;
            let end = dscr.spec_data_end(len);
            let ms = dscr.spec_max_scroll(len);
            PosCol {
                cursor: if self.cursor > end {
                    end
                } else if self.cursor < start {
                    start
                } else {
                    self.cursor
                },
                scroll: if self.scroll > ms { ms } else { self.scroll },
            }
        }
    }

    /// The state that shows item `idx` of `len` items in `rng`, an index past
    /// the data counting as its end. Near the start of the data nothing is
    /// scrolled, near its end everything is, and in between the cursor stands
    /// in the middle of the range.
    pub open spec fn spec_fit(rng: ScreenRange, idx: usize, len: usize) -> PosCol {
        let idx = if idx > len { len } else { idx };
        let rng_len = rng.spec_len();
        let ms = rng.spec_max_scroll(len);
        if idx < rng_len {
            PosCol { cursor: (rng.start + idx) as u16, scroll: 0 }
        } else if idx > ms {
            PosCol { cursor: (rng.start + (idx - ms)) as u16, scroll: ms }
        } else {
            PosCol {
                cursor: (rng.start + rng_len / 2) as u16,
                scroll: (idx - rng_len / 2) as usize,
            }
        }
    }

    /// The state after the range or the data changed size: the scroll offset
    /// stays within its new maximum and the cursor goes to the middle of the
    /// range, or to the end of the data if that comes first.
    pub open spec fn resized(self, rng: ScreenRange, len: usize) -> PosCol {
        let ms = rng.spec_max_scroll(len);
        let mid = rng.start + rng.spec_len() / 2;
        let de = rng.spec_data_end(len);
        PosCol {
            cursor: if rng.start <= de && de < mid { de } else { mid as u16 },
            scroll: if self.scroll > ms { ms } else { self.scroll },
        }
    }

    /// The state that shows item `idx` of `len` items in `rng` with a scroll
    /// offset as near to `scroll` as that allows; an index past the data
    /// counts as its end.
    pub open spec fn spec_place(rng: ScreenRange, idx: usize, len: usize, scroll: usize) -> PosCol {
        let i = if idx > len { len } else { idx };
        let de = rng.spec_data_end(len);
        let room = if de >= rng.start { de - rng.start } else { 0 };
        let ms = rng.spec_max_scroll(len);
        let lo = if i > room { i - room } else { 0 };
        let hi = if ms < i { ms } else { i };
        let s = if scroll < lo { lo } else if scroll > hi { hi as int } else { scroll as int };
        PosCol { cursor: (rng.start + (i - s)) as u16, scroll: s as usize }
    }

    /// The state at the start of the range, nothing scrolled.
    pub fn origin(rng: &ScreenRange) -> (r: PosCol)
        ensures
            r.at_start(*rng),
    {
        PosCol { cursor: rng.start, scroll: 0 }
    }

    /// Index into the data of the item under the cursor, at most `max`.
    pub fn data_idx_cap(&self, rng: &ScreenRange, max: usize) -> (r: usize)
        ensures
            r == (if self.spec_data_idx(*rng) < max { self.spec_data_idx(*rng) } else { max as int }),
    {
        let idx = self.data_idx(rng);
        if idx < max {
            idx
        } else {
            max
        }
    }

    /// Index into the data of the item under the cursor. It stops at the
    /// largest `usize`.
    pub fn data_idx(&self, rng: &ScreenRange) -> (r: usize)
        ensures
            r == index_add(self.spec_data_idx(*rng), 0),
    {
        if self.cursor > rng.start {
            let p: u16 = self.cursor - rng.start;
            self.scroll.saturating_add(p as usize)
        } else {
            self.scroll
        }
    }

    /// The first data item shown and the one just past the last shown.
    pub fn data_range(&self, rng: &ScreenRange, len: usize) -> (r: (usize, usize))
        ensures
            len < rng.spec_len() ==> r == (0usize, len),
            len >= rng.spec_len() ==> r.0 == self.scroll && r.1 == (if self.scroll + rng.spec_len()
                < len {
                self.scroll + rng.spec_len()
            } else {
                len as int
            }),
    {
        if len < rng.len() {
            (0, len)
        } else {
            let end = self.scroll.saturating_add(rng.len());
            (
                self.scroll,
                if end < len {
                    end
                } else {
                    len
                },
            )
        }
    }

    /// The state that shows item `idx` of `len` items in `rng`.
    pub fn fit(rng: &ScreenRange, idx: usize, len: usize) -> (r: PosCol)
        ensures
            r == Self::spec_fit(*rng, idx, len),
            rng.wf() ==> r.wf(*rng, len),
            rng.wf() ==> r.spec_data_idx(*rng) == (if idx > len { len } else { idx }),
    {
        let idx = if idx > len { len } else { idx };
        let rng_len = rng.len();
        let max_scroll = rng.get_max_scroll(len);
        if idx < rng_len {
            PosCol { cursor: rng.start + (idx as u16), scroll: 0 }
        } else if idx > max_scroll {
            PosCol { cursor: rng.start + ((idx - max_scroll) as u16), scroll: max_scroll }
        } else {
            PosCol { cursor: rng.start + ((rng_len / 2) as u16), scroll: idx - rng_len / 2 }
        }
    }

    /// The state that shows item `idx` of `len` items in `rng` with a scroll
    /// offset as near to `scroll` as that allows.
    pub fn place(rng: &ScreenRange, idx: usize, len: usize, scroll: usize) -> (r: PosCol)
        ensures
            r == Self::spec_place(*rng, idx, len, scroll),
            rng.wf() ==> r.wf(*rng, len),
            rng.wf() ==> r.spec_data_idx(*rng) == (if idx > len { len } else { idx }),
            rng.wf() && scroll <= rng.spec_max_scroll(len) && (if idx > len { len } else { idx })
                - (rng.spec_data_end(len) - rng.start) <= scroll <= idx ==> r.scroll == scroll,
    {
        let i = if idx > len { len } else { idx };
        let room = rng.get_data_end(len).saturating_sub(rng.start) as usize;
        let ms = rng.get_max_scroll(len);
        let lo = i.saturating_sub(room);
        let hi = if ms < i { ms } else { i };
        let s = if scroll < lo { lo } else if scroll > hi { hi } else { scroll };
        PosCol { cursor: rng.start + ((i - s) as u16), scroll: s }
    }

    /// Adapts the state to a range or data that changed size.
    pub fn resize(&mut self, rng: &ScreenRange, len: usize)
        ensures
            *final(self) == old(self).resized(*rng, len),
            rng.wf() ==> final(self).wf(*rng, len),
    {
        let ms = rng.get_max_scroll(len);
        let mid: u16 = rng.start + ((rng.len() / 2) as u16);
        let de = rng.get_data_end(len);
        self.cursor = if rng.start <= de && de < mid { de } else { mid };
        if self.scroll > ms {
            self.scroll = ms;
        }
    }

    /// Whether the state lies within a row of `len` items shown in `outer`.
    pub fn is_within(&self, outer: &ScreenRange, len: usize) -> (r: bool)
        ensures
            r == self.within(*outer, len),
    {
        if !(outer.start <= self.cursor && self.cursor <= outer.end) {
            return false;
        }
        let offset = (self.cursor - outer.start) as usize;
        offset <= len && self.scroll <= len - offset && (len >= outer.len() || self.scroll == 0)
    }

    /// Brings the state into a row of `len` items: a state within the row
    /// stays as it is.
    pub fn move_into(&mut self, dscr: &DataScreenRange, len: usize)
        ensures
            *final(self) == old(self).moved_into(*dscr, len),
            old(self).within(dscr.outer, len) ==> *final(self) == *old(self),
            dscr.outer.wf() ==> final(self).within(dscr.outer, len),
            dscr.outer.wf() ==> final(self).spec_data_idx(dscr.outer) <= len,
            dscr.outer.wf() && !old(self).within(dscr.outer, len) ==> final(self).wf(
                dscr.outer,
                len,
            ),
    {
        if self.is_within(&dscr.outer, len) {
            return ;
        }
        let start = dscr.outer.start;
        let end = dscr.get_data_end(len);
        let ms = dscr.get_max_scroll(len);
        if self.cursor > end {
            self.cursor = end;
        } else if self.cursor < start {
            self.cursor = start;
        }
        if self.scroll > ms {
            self.scroll = ms;
        }
    }

    /// Moves back by `step`; says whether anything changed.
    pub fn move_backward(&mut self, dscr: &DataScreenRange, step: u16) -> (changed: bool)
        ensures
            *final(self) == old(self).backward(*dscr, step),
            changed == (*final(self) != *old(self)),
            forall|dlen: usize|
                old(self).wf(dscr.outer, dlen) ==> #[trigger] final(self).wf(dscr.outer, dlen),
            dscr.outer.start <= old(self).cursor ==> final(self).spec_data_idx(dscr.outer) == (
            if old(self).spec_data_idx(dscr.outer) > step {
                old(self).spec_data_idx(dscr.outer) - step
            } else {
                0
            }),
    {
        let start = dscr.outer.start;
        let edge = if dscr.inner.start > start { dscr.inner.start } else { start };
        let mut left: u16 = step;
        let room1: u16 = self.cursor.saturating_sub(edge);
        let d1: u16 = if left < room1 { left } else { room1 };
        self.cursor -= d1;
        left -= d1;
        let d2: u16 = if (left as usize) < self.scroll { left } else { self.scroll as u16 };
        self.scroll -= d2 as usize;
        left -= d2;
        let room3: u16 = self.cursor.saturating_sub(start);
        let d3: u16 = if left < room3 { left } else { room3 };
        self.cursor -= d3;
        d1 > 0 || d2 > 0 || d3 > 0
    }

    /// Brings the state to the valid state that a move starts from.
    pub fn settle(&mut self, outer: &ScreenRange, dlen: usize)
        ensures
            *final(self) == old(self).settled(*outer, dlen),
            outer.wf() ==> final(self).wf(*outer, dlen),
    {
        let de = outer.get_data_end(dlen);
        let ms = outer.get_max_scroll(dlen);
        if !(outer.start <= self.cursor && self.cursor <= de && self.scroll <= ms) {
            let idx = self.data_idx(outer);
            let placed = PosCol::place(outer, idx, dlen, self.scroll);
            self.cursor = placed.cursor;
            self.scroll = placed.scroll;
        }
    }

    /// Moves forward by `step` over data of `dlen` items; says whether
    /// anything changed. In an ordered range the state is valid afterwards,
    /// whatever it was before.
    pub fn move_forward(&mut self, dscr: &DataScreenRange, dlen: usize, step: u16) -> (changed:
        bool)
        ensures
            *final(self) == old(self).forward(*dscr, dlen, step),
            changed == (*final(self) != *old(self)),
            dscr.outer.wf() ==> final(self).wf(dscr.outer, dlen),
            old(self).wf(dscr.outer, dlen) ==> final(self).spec_data_idx(dscr.outer) == (
            if old(self).spec_data_idx(dscr.outer) + step < dlen {
                old(self).spec_data_idx(dscr.outer) + step
            } else {
                dlen as int
            }),
            old(self).wf(dscr.outer, dlen) && old(self).spec_data_idx(dscr.outer) + step >= dlen
                ==> final(self).at_end(dscr.outer, dlen),
    {
        let before = *self;
        self.settle(&dscr.outer, dlen);
        let de = dscr.get_data_end(dlen);
        let ms = dscr.get_max_scroll(dlen);
        let edge = if dscr.inner.end < de { dscr.inner.end } else { de };
        let mut left: u16 = step;
        let room1: u16 = edge.saturating_sub(self.cursor);
        let d1: u16 = if left < room1 { left } else { room1 };
        self.cursor += d1;
        left -= d1;
        let room2: usize = ms.saturating_sub(self.scroll);
        let d2: u16 = if (left as usize) < room2 { left } else { room2 as u16 };
        self.scroll += d2 as usize;
        left -= d2;
        let room3: u16 = de.saturating_sub(self.cursor);
        let d3: u16 = if left < room3 { left } else { room3 };
        self.cursor += d3;
        self.cursor != before.cursor || self.scroll != before.scroll
    }
}

/// A forward move keeps a valid state valid: the cursor stays between the
/// start of the range and the end of the data, the scroll offset within its
/// maximum.
pub proof fn forward_keeps_wf(col: PosCol, dscr: DataScreenRange, dlen: usize, step: u16)
    requires
        col.wf(dscr.outer, dlen),
    ensures
        col.forward(dscr, dlen, step).wf(dscr.outer, dlen),
{
}

/// In an ordered range a forward move ends in a valid state, whatever state
/// it began in.
pub proof fn forward_gives_wf(col: PosCol, dscr: DataScreenRange, dlen: usize, step: u16)
    requires
        dscr.outer.wf(),
    ensures
        col.settled(dscr.outer, dlen).wf(dscr.outer, dlen),
        col.forward(dscr, dlen, step).wf(dscr.outer, dlen),
{
    placed_shows_index(
        dscr.outer,
        index_add(col.spec_data_idx(dscr.outer), 0) as usize,
        dlen,
        col.scroll,
    );
}

/// A forward move by a step other than 0, from a state whose cursor is in
/// the range and whose scroll offset is within its maximum, leaves the state
/// as it was only where cursor and scroll offset are both as far forward as
/// they go. Else the data index grows by the step, as far as the data goes;
/// a cursor that stood past the end of the data comes back onto the end.
pub proof fn forward_moves_unless_at_end(col: PosCol, dscr: DataScreenRange, dlen: usize, step: u16)
    requires
        dscr.outer.wf(),
        dscr.outer.start <= col.cursor <= dscr.outer.end,
        col.scroll <= dscr.outer.spec_max_scroll(dlen),
        step >= 1,
    ensures
        col.forward(dscr, dlen, step) == col <==> col.at_end(dscr.outer, dlen),
        col.forward(dscr, dlen, step).spec_data_idx(dscr.outer) == (if col.spec_data_idx(
            dscr.outer,
        ) + step < dscr.outer.spec_max_scroll(dlen) + (dscr.outer.spec_data_end(dlen)
            - dscr.outer.start) {
            col.spec_data_idx(dscr.outer) + step
        } else {
            dscr.outer.spec_max_scroll(dlen) + (dscr.outer.spec_data_end(dlen) - dscr.outer.start)
        }),
{
    placed_shows_index(
        dscr.outer,
        index_add(col.spec_data_idx(dscr.outer), 0) as usize,
        dlen,
        col.scroll,
    );
}

/// Bringing a state into a row leaves a state that lies within the row as
/// it is, and brings every other state within it.
pub proof fn moved_into_lies_within(col: PosCol, dscr: DataScreenRange, len: usize)
    requires
        dscr.outer.wf(),
    ensures
        col.moved_into(dscr, len).within(dscr.outer, len),
        col.within(dscr.outer, len) ==> col.moved_into(dscr, len) == col,
        col.wf(dscr.outer, len) ==> col.within(dscr.outer, len),
{
}

/// A backward move keeps a valid state valid.
pub proof fn backward_keeps_wf(col: PosCol, dscr: DataScreenRange, dlen: usize, step: u16)
    requires
        col.wf(dscr.outer, dlen),
    ensures
        col.backward(dscr, step).wf(dscr.outer, dlen),
{
}

/// A forward move adds the step to the data index and stops at the end of the
/// data, wherever the inner range lies: no part of the step is lost where the
/// cursor hands over to the scroll offset or back.
pub proof fn forward_adds_to_index(col: PosCol, dscr: DataScreenRange, dlen: usize, step: u16)
    requires
        col.wf(dscr.outer, dlen),
    ensures
        col.forward(dscr, dlen, step).spec_data_idx(dscr.outer) == (if col.spec_data_idx(
            dscr.outer,
        ) + step < dlen {
            col.spec_data_idx(dscr.outer) + step
        } else {
            dlen as int
        }),
{
}

/// A backward move takes the step from the data index and stops at 0.
pub proof fn backward_takes_from_index(col: PosCol, dscr: DataScreenRange, dlen: usize, step: u16)
    requires
        col.wf(dscr.outer, dlen),
    ensures
        col.backward(dscr, step).spec_data_idx(dscr.outer) == (if col.spec_data_idx(dscr.outer)
            > step {
            col.spec_data_idx(dscr.outer) - step
        } else {
            0
        }),
{
}

/// One forward move by the length of the data, made from the start, ends with
/// cursor and scroll offset both at their maximum.
pub proof fn forward_by_length_reaches_end(col: PosCol, dscr: DataScreenRange, dlen: usize, step: u16)
    requires
        dscr.outer.wf(),
        col.at_start(dscr.outer),
        step == dlen,
    ensures
        col.forward(dscr, dlen, step).at_end(dscr.outer, dlen),
{
}

/// A forward move that covers what is left of the data ends with cursor and
/// scroll offset both at their maximum.
pub proof fn forward_reaches_end(col: PosCol, dscr: DataScreenRange, dlen: usize, step: u16)
    requires
        col.wf(dscr.outer, dlen),
        col.spec_data_idx(dscr.outer) + step >= dlen,
    ensures
        col.forward(dscr, dlen, step).at_end(dscr.outer, dlen),
{
}

/// A backward move that covers the data index ends at the start.
pub proof fn backward_reaches_start(col: PosCol, dscr: DataScreenRange, dlen: usize, step: u16)
    requires
        col.wf(dscr.outer, dlen),
        step >= col.spec_data_idx(dscr.outer),
    ensures
        col.backward(dscr, step).at_start(dscr.outer),
{
}

/// A forward move by a step other than 0 leaves the state as it was only at
/// the end, and a backward one only at the start.
pub proof fn move_stays_only_at_extreme(col: PosCol, dscr: DataScreenRange, dlen: usize, step: u16)
    requires
        col.wf(dscr.outer, dlen),
        step > 0,
    ensures
        col.forward(dscr, dlen, step) == col <==> col.at_end(dscr.outer, dlen),
        col.backward(dscr, step) == col <==> col.at_start(dscr.outer),
{
}

/// A placed state is valid and shows the index it was placed on.
pub proof fn placed_shows_index(rng: ScreenRange, idx: usize, len: usize, scroll: usize)
    requires
        rng.wf(),
    ensures
        PosCol::spec_place(rng, idx, len, scroll).wf(rng, len),
        PosCol::spec_place(rng, idx, len, scroll).spec_data_idx(rng) == (if idx > len {
            len
        } else {
            idx
        }),
{
}

/// One thing that can happen to an axis.
pub enum Motion {
    Forward(u16),
    Backward(u16),
    /// The range and the length of the data change.
    Resize(DataScreenRange, usize),
}

/// An axis of a view with the geometry that it is valid for.
pub struct Axis {
    pub col: PosCol,
    pub dscr: DataScreenRange,
    pub dlen: usize,
}

impl Axis {
    pub open spec fn wf(self) -> bool {
        self.col.wf(self.dscr.outer, self.dlen)
    }

    /// The axis after one motion.
    pub open spec fn after(self, m: Motion) -> Axis {
        match m {
            Motion::Forward(step) => Axis {
                col: self.col.forward(self.dscr, self.dlen, step),
                ..self
            },
            Motion::Backward(step) => Axis { col: self.col.backward(self.dscr, step), ..self },
            Motion::Resize(dscr, dlen) => Axis {
                col: self.col.resized(dscr.outer, dlen),
                dscr,
                dlen,
            },
        }
    }

    /// The axis after a sequence of motions, the first one first.
    pub open spec fn after_all(self, ms: Seq<Motion>) -> Axis
        decreases ms.len(),
    {
        if ms.len() == 0 {
            self
        } else {
            self.after(ms[0]).after_all(ms.drop_first())
        }
    }
}

/// Whatever sequence of moves and resizes an axis goes through, it stays
/// valid: the cursor within its range, the scroll offset within its maximum.
/// A resize has to bring an ordered range.
pub proof fn motions_keep_wf(a: Axis, ms: Seq<Motion>)
    requires
        a.wf(),
        forall|i: int|
            0 <= i < ms.len() ==> (#[trigger] ms[i] matches Motion::Resize(d, _) ==> d.outer.wf()),
    ensures
        a.after_all(ms).wf(),
        a.after_all(ms).dscr.outer.start <= a.after_all(ms).col.cursor <= a.after_all(
            ms,
        ).dscr.outer.end,
    decreases ms.len(),
{
    if ms.len() > 0 {
        let rest = ms.drop_first();
        assert forall|i: int| 0 <= i < rest.len() implies (#[trigger] rest[i] matches Motion::Resize(
            d,
            _,
        ) ==> d.outer.wf()) by {
            assert(rest[i] == ms[i + 1]);
        }
        assert(ms[0] matches Motion::Resize(d, _) ==> d.outer.wf());
        motions_keep_wf(a.after(ms[0]), rest);
    }
}

/// What a view scrolls over: rows, each of a length of its own.
pub trait TextDim {
    /// The length of each row.
    spec fn row_lens(&self) -> Seq<usize>;

    /// The number of rows.
    fn y_len(&self) -> (r: usize)
        ensures
            r == self.row_lens().len(),
    ;

    /// The length of row `y`, if there is such a row.
    fn x_len(&self, y: usize) -> (r: Option<usize>)
        ensures
            r == (if y < self.row_lens().len() {
                Some(self.row_lens()[y as int])
            } else {
                None
            }),
    ;
}

impl TextDim for Vec<usize> {
    open spec fn row_lens(&self) -> Seq<usize> {
        self@
    }

    fn y_len(&self) -> (r: usize) {
        self.len()
    }

    fn x_len(&self, y: usize) -> (r: Option<usize>) {
        if y < self.len() {
            Some(self[y])
        } else {
            None
        }
    }
}

/// The cursor and scroll state of a view on both axes.
#[derive(Clone, Copy, Debug, PartialEq, Eq)]
pub struct Pos {
    pub x: PosCol,
    pub y: PosCol,
}

impl Pos {
    /// The data index on the vertical axis, as `data_idx` gives it.
    pub open spec fn spec_y_idx(self, scr: DataScreen) -> int {
        index_add(self.y.spec_data_idx(scr.outer.spec_y_rng()), 0)
    }

    /// The row that the cursor is on: the vertical data index, or the last
    /// row where the index lies past it.
    pub open spec fn spec_row(self, scr: DataScreen, rows: Seq<usize>) -> int {
        let last = if rows.len() > 0 { rows.len() - 1 } else { 0 };
        if self.spec_y_idx(scr) < last {
            self.spec_y_idx(scr)
        } else {
            last
        }
    }

    /// The state is valid for the rows: the vertical axis for their number,
    /// the horizontal axis for the length of the row that the cursor is on.
    pub open spec fn wf(self, scr: DataScreen, rows: Seq<usize>) -> bool {
        &&& rows.len() <= usize::MAX
        &&& self.y.wf(scr.outer.spec_y_rng(), rows.len() as usize)
        &&& rows.len() > 0 ==> self.x.wf(scr.outer.spec_x_rng(), rows[self.spec_row(scr, rows)])
    }

    /// The state with the horizontal axis brought into the row that the
    /// cursor is on, and settled there: the cursor stays on the same item of
    /// the row where the row has it, and the row is not scrolled past its
    /// end.
    pub open spec fn into_x(self, scr: DataScreen, rows: Seq<usize>) -> Pos {
        if rows.len() == 0 {
            self
        } else {
            Pos {
                x: self.x.moved_into(scr.spec_x_rng(), rows[self.spec_row(scr, rows)]).settled(
                    scr.outer.spec_x_rng(),
                    rows[self.spec_row(scr, rows)],
                ),
                y: self.y,
            }
        }
    }

    /// The state after the screen or the rows changed.
    pub open spec fn resized(self, scr: DataScreen, rows: Seq<usize>) -> Pos {
        (Pos { x: self.x, y: self.y.resized(scr.outer.spec_y_rng(), rows.len() as usize) }).into_x(
            scr,
            rows,
        )
    }

    pub open spec fn left(self, scr: DataScreen, step: u16) -> Pos {
        Pos { x: self.x.backward(scr.spec_x_rng(), step), y: self.y }
    }

    /// A move to the right runs over the row under the cursor; where the
    /// cursor stands past the last row nothing moves.
    pub open spec fn right(self, scr: DataScreen, rows: Seq<usize>, step: u16) -> Pos {
        if self.spec_y_idx(scr) < rows.len() {
            Pos { x: self.x.forward(scr.spec_x_rng(), rows[self.spec_y_idx(scr)], step), y: self.y }
        } else {
            self
        }
    }

    /// A move up, after which the horizontal axis is brought into the new row.
    pub open spec fn up(self, scr: DataScreen, rows: Seq<usize>, step: u16) -> Pos {
        let y = self.y.backward(scr.spec_y_rng(), step);
        if y != self.y {
            (Pos { x: self.x, y }).into_x(scr, rows)
        } else {
            self
        }
    }

    /// A move down, after which the horizontal axis is brought into the new
    /// row.
    pub open spec fn down(self, scr: DataScreen, rows: Seq<usize>, step: u16) -> Pos {
        let y = self.y.forward(scr.spec_y_rng(), rows.len() as usize, step);
        if y != self.y {
            (Pos { x: self.x, y }).into_x(scr, rows)
        } else {
            self
        }
    }

    /// The state at the top left of `screen`, nothing scrolled.
    pub fn origin(screen: &Screen) -> (r: Pos)
        ensures
            r.x.at_start(screen.spec_x_rng()),
            r.y.at_start(screen.spec_y_rng()),
    {
        Pos { x: PosCol::origin(&screen.get_x_rng()), y: PosCol::origin(&screen.get_y_rng()) }
    }

    pub fn from_cols(x: &PosCol, y: &PosCol) -> (r: Pos)
        ensures
            r.x == *x,
            r.y == *y,
    {
        Pos { x: *x, y: *y }
    }

    pub fn x(&self) -> (r: PosCol)
        ensures
            r == self.x,
    {
        self.x
    }

    pub fn y(&self) -> (r: PosCol)
        ensures
            r == self.y,
    {
        self.y
    }

    pub fn get_x_col(&self) -> (r: PosCol)
        ensures
            r == self.x,
    {
        self.x
    }

    pub fn get_y_col(&self) -> (r: PosCol)
        ensures
            r == self.y,
    {
        self.y
    }

    pub fn get_cols(&self) -> (r: (PosCol, PosCol))
        ensures
            r == (self.x, self.y),
    {
        (self.x, self.y)
    }

    pub fn set_y_col(&mut self, y_col: &PosCol)
        ensures
            final(self).y == *y_col,
            final(self).x == old(self).x,
    {
        self.y = *y_col;
    }

    pub fn set_x_col(&mut self, x_col: &PosCol)
        ensures
            final(self).x == *x_col,
            final(self).y == old(self).y,
    {
        self.x = *x_col;
    }

    /// Moves left by `step`; says whether anything changed.
    pub fn move_left(&mut self, scr: &DataScreen, step: u16) -> (changed: bool)
        ensures
            *final(self) == old(self).left(*scr, step),
            changed == (*final(self) != *old(self)),
    {
        self.x.move_backward(&scr.get_x_rng(), step)
    }

    /// Moves right by `step` over the row under the cursor; says whether
    /// anything changed.
    pub fn move_right<T: TextDim>(&mut self, scr: &DataScreen, data: &T, step: u16) -> (changed:
        bool)
        ensures
            *final(self) == old(self).right(*scr, data.row_lens(), step),
            changed == (*final(self) != *old(self)),
    {
        let idx = self.y.data_idx(&scr.outer.get_y_rng());
        match data.x_len(idx) {
            Some(x_len) => self.x.move_forward(&scr.get_x_rng(), x_len, step),
            None => false,
        }
    }

    /// Moves up by `step` and brings the horizontal axis into the new row;
    /// says whether the row changed.
    pub fn move_up<T: TextDim>(&mut self, scr: &DataScreen, data: &T, step: u16) -> (changed: bool)
        ensures
            *final(self) == old(self).up(*scr, data.row_lens(), step),
            changed == (final(self).y != old(self).y),
    {
        if self.y.move_backward(&scr.get_y_rng(), step) {
            self.move_into_x(scr, data);
            true
        } else {
            false
        }
    }

    /// Moves down by `step` and brings the horizontal axis into the new row;
    /// says whether the row changed.
    pub fn move_down<T: TextDim>(&mut self, scr: &DataScreen, data: &T, step: u16) -> (changed:
        bool)
        ensures
            *final(self) == old(self).down(*scr, data.row_lens(), step),
            changed == (final(self).y != old(self).y),
    {
        if self.y.move_forward(&scr.get_y_rng(), data.y_len(), step) {
            self.move_into_x(scr, data);
            true
        } else {
            false
        }
    }

    /// Brings the horizontal axis into the row that the cursor is on.
    pub fn move_into_x<T: TextDim>(&mut self, scr: &DataScreen, data: &T)
        ensures
            *final(self) == old(self).into_x(*scr, data.row_lens()),
    {
        let idx1 = self.y.data_idx(&scr.outer.get_y_rng());
        let idx2 = data.y_len().saturating_sub(1);
        let idx = if idx1 < idx2 { idx1 } else { idx2 };
        match data.x_len(idx) {
            Some(d) => {
                self.x.move_into(&scr.get_x_rng(), d);
                self.x.settle(&scr.outer.get_x_rng(), d);
            },
            None => {},
        }
    }

    /// Adapts the state to a screen or rows that changed: the vertical axis
    /// as `PosCol::resize` does, the horizontal one brought into the row that
    /// the cursor is then on.
    pub fn resize<T: TextDim>(&mut self, scr: &DataScreen, data: &T)
        ensures
            *final(self) == old(self).resized(*scr, data.row_lens()),
    {
        self.y.resize(&scr.outer.get_y_rng(), data.y_len());
        self.move_into_x(scr, data);
    }

    /// Brings the vertical axis into the number of rows, and settles it
    /// there.
    pub fn move_into_y<T: TextDim>(&mut self, scr: &DataScreen, data: &T)
        ensures
            final(self).y == old(self).y.moved_into(
                scr.spec_y_rng(),
                data.row_lens().len() as usize,
            ).settled(scr.outer.spec_y_rng(), data.row_lens().len() as usize),
            final(self).y.wf(scr.outer.spec_y_rng(), data.row_lens().len() as usize),
            final(self).x == old(self).x,
    {
        self.y.move_into(&scr.get_y_rng(), data.y_len());
        self.y.settle(&scr.outer.get_y_rng(), data.y_len());
    }
}

/// A settled state is valid in an ordered range.
pub proof fn settled_is_wf(col: PosCol, outer: ScreenRange, dlen: usize)
    requires
        outer.wf(),
    ensures
        col.settled(outer, dlen).wf(outer, dlen),
{
    placed_shows_index(outer, index_add(col.spec_data_idx(outer), 0) as usize, dlen, col.scroll);
}

/// A valid state stands on an item of the data or on its end.
pub proof fn wf_index_within(col: PosCol, outer: ScreenRange, dlen: usize)
    requires
        col.wf(outer, dlen),
    ensures
        0 <= col.spec_data_idx(outer) <= dlen,
{
}

/// Brought into its row, the horizontal axis is valid for the row.
pub proof fn into_x_is_wf(pos: Pos, scr: DataScreen, rows: Seq<usize>)
    requires
        rows.len() > 0,
    ensures
        pos.into_x(scr, rows).y == pos.y,
        pos.into_x(scr, rows).x.wf(scr.outer.spec_x_rng(), rows[pos.spec_row(scr, rows)]),
        pos.into_x(scr, rows).x.spec_data_idx(scr.outer.spec_x_rng()) <= rows[pos.spec_row(
            scr,
            rows,
        )],
{
    let outer = scr.outer.spec_x_rng();
    let len = rows[pos.spec_row(scr, rows)];
    let x = pos.x.moved_into(scr.spec_x_rng(), len);
    settled_is_wf(x, outer, len);
    wf_index_within(x.settled(outer, len), outer, len);
}

/// After a vertical move the state is valid for the rows, whatever the
/// horizontal axis was before: the cursor does not point past the end of a
/// shorter row.
pub proof fn vertical_move_keeps_wf(pos: Pos, scr: DataScreen, rows: Seq<usize>, step: u16)
    requires
        rows.len() <= usize::MAX,
        pos.wf(scr, rows),
    ensures
        pos.up(scr, rows, step).wf(scr, rows),
        pos.down(scr, rows, step).wf(scr, rows),
        rows.len() > 0 ==> pos.up(scr, rows, step).x.spec_data_idx(scr.outer.spec_x_rng())
            <= rows[pos.up(scr, rows, step).spec_row(scr, rows)],
        rows.len() > 0 ==> pos.down(scr, rows, step).x.spec_data_idx(scr.outer.spec_x_rng())
            <= rows[pos.down(scr, rows, step).spec_row(scr, rows)],
{
    let y_rng = scr.spec_y_rng();
    let n = rows.len() as usize;
    let y_up = pos.y.backward(y_rng, step);
    let y_down = pos.y.forward(y_rng, n, step);
    backward_keeps_wf(pos.y, y_rng, n, step);
    forward_keeps_wf(pos.y, y_rng, n, step);
    if rows.len() > 0 {
        into_x_is_wf(Pos { x: pos.x, y: y_up }, scr, rows);
        into_x_is_wf(Pos { x: pos.x, y: y_down }, scr, rows);
        wf_index_within(pos.x, scr.outer.spec_x_rng(), rows[pos.spec_row(scr, rows)]);
    }
}

/// After a resize the state is valid for the new screen and rows, whatever
/// it was before.
pub proof fn resize_gives_wf(pos: Pos, scr: DataScreen, rows: Seq<usize>)
    requires
        rows.len() <= usize::MAX,
    ensures
        pos.resized(scr, rows).wf(scr, rows),
{
}

/// A horizontal move keeps a valid state valid.
pub proof fn horizontal_move_keeps_wf(pos: Pos, scr: DataScreen, rows: Seq<usize>, step: u16)
    requires
        pos.wf(scr, rows),
    ensures
        pos.left(scr, step).wf(scr, rows),
        pos.right(scr, rows, step).wf(scr, rows),
{
}

/// Index into the data of the item under the cursor of `col`.
pub fn data_idx(rng: &ScreenRange, col: &PosCol) -> (r: usize)
    ensures
        r == index_add(col.spec_data_idx(*rng), 0),
{
    col.data_idx(rng)
}

/// The first data item that `pos` shows in `rng` and the one just past the
/// last.
pub fn data_range(rng: &ScreenRange, pos: &PosCol, len: usize) -> (r: (usize, usize))
    ensures
        r == spec_data_range(*rng, *pos, len),
{
    pos.data_range(rng, len)
}

pub open spec fn spec_data_range(rng: ScreenRange, pos: PosCol, len: usize) -> (usize, usize) {
    if len < rng.spec_len() {
        (0usize, len)
    } else if pos.scroll + rng.spec_len() < len {
        (pos.scroll, (pos.scroll + rng.spec_len()) as usize)
    } else {
        (pos.scroll, len)
    }
}

/// What to draw: for each row shown, its screen row, its index in `data`, and
/// the part of the row that is shown, from its first item to just past its
/// last.
pub open spec fn spec_get_ranges(dscr: DataScreen, pos: Pos, data: Seq<usize>) -> Seq<
    (u16, usize, usize, usize),
> {
    let y_outer = dscr.outer.spec_y_rng();
    let rows = spec_data_range(y_outer, pos.y, data.len() as usize);
    Seq::new(
        if rows.0 < rows.1 { (rows.1 - rows.0) as nat } else { 0 },
        |e: int|
            {
                let cols = spec_data_range(dscr.outer.spec_x_rng(), pos.x, data[rows.0 + e]);
                ((y_outer.start + e) as u16, (rows.0 + e) as usize, cols.0, cols.1)
            },
    )
}

/// The rows to draw and the part of each that is shown.
pub fn get_ranges(dscr: &DataScreen, pos: &Pos, data: &Vec<usize>) -> (r: Vec<
    (u16, usize, usize, usize),
>)
    ensures
        r@ == spec_get_ranges(*dscr, *pos, data@),
{
    let mut vec: Vec<(u16, usize, usize, usize)> = Vec::new();
    let (x_outer, y_outer) = dscr.outer.get_rngs();
    let (start, end) = data_range(&y_outer, &pos.y, data.len());
    let mut i: usize = start;
    while i < end
        invariant
            x_outer == dscr.outer.spec_x_rng(),
            y_outer == dscr.outer.spec_y_rng(),
            y_outer.wf(),
            (start, end) == spec_data_range(y_outer, pos.y, data.len()),
            start <= i,
            start < end ==> i <= end,
            start >= end ==> i == start,
            vec.len() == i - start,
            forall|e: int|
                0 <= e < vec.len() ==> #[trigger] vec[e] == spec_get_ranges(*dscr, *pos, data@)[e],
        decreases end - i,
    {
        let (a, b) = data_range(&x_outer, &pos.x, data[i]);
        let scr_idx: u16 = y_outer.start + ((i - start) as u16);
        vec.push((scr_idx, i, a, b));
        i += 1;
    }
    assert(vec@ =~= spec_get_ranges(*dscr, *pos, data@));
    vec
}

} // verus!
