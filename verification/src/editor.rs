//! A line of text that is edited in place: the text, and the cursor and
//! scroll state that say where in it the next key takes effect.

use vstd::prelude::*;
use crate::cfg::Rgb;
use crate::pos::{PosCol, TextDim, index_add};
use crate::screen::DataScreen;
use crate::text::{chars_of, string_of};

verus! {

/// A line of text under edit.
#[derive(Clone, Debug, PartialEq, Eq)]
pub struct Editor {
    pub scr: DataScreen,
    pub pcol: PosCol,
    pub txt: Vec<char>,
    pub color: Rgb,
}

/// An editor as plain values.
pub struct EditorView {
    pub scr: DataScreen,
    pub pcol: PosCol,
    pub txt: Seq<char>,
    pub color: Rgb,
}

impl EditorView {
    /// The place in the text where the next key takes effect: the data
    /// index of the cursor, or the end of the text where that lies past it.
    pub open spec fn idx(self) -> int {
        let i = index_add(self.pcol.spec_data_idx(self.scr.outer.spec_x_rng()), 0);
        if i < self.txt.len() {
            i
        } else {
            self.txt.len() as int
        }
    }

    /// The cursor put where it shows place `idx` of a text of `len`
    /// characters, the scroll offset kept as far as that allows.
    pub open spec fn placed(self, txt: Seq<char>, idx: int) -> EditorView {
        EditorView {
            scr: self.scr,
            pcol: PosCol::spec_place(
                self.scr.outer.spec_x_rng(),
                idx as usize,
                txt.len() as usize,
                self.pcol.scroll,
            ),
            txt,
            color: self.color,
        }
    }

    /// `c` put in at the cursor, the cursor moved past it.
    pub open spec fn inserted(self, c: char) -> EditorView {
        self.placed(self.txt.insert(self.idx(), c), self.idx() + 1)
    }

    /// The character under the cursor removed, if there is one.
    pub open spec fn deleted(self) -> EditorView {
        if self.idx() < self.txt.len() {
            self.placed(self.txt.remove(self.idx()), self.idx())
        } else {
            self
        }
    }

    /// The character before the cursor removed, if there is one, and the
    /// cursor moved onto its place.
    pub open spec fn backspaced(self) -> EditorView {
        if self.idx() > 0 {
            self.placed(self.txt.remove(self.idx() - 1), self.idx() - 1)
        } else {
            self
        }
    }

    pub open spec fn left(self, step: u16) -> EditorView {
        EditorView { pcol: self.pcol.backward(self.scr.spec_x_rng(), step), ..self }
    }

    pub open spec fn right(self, step: u16) -> EditorView {
        EditorView {
            pcol: self.pcol.forward(self.scr.spec_x_rng(), self.txt.len() as usize, step),
            ..self
        }
    }
}

impl View for Editor {
    type V = EditorView;

    open spec fn view(&self) -> EditorView {
        EditorView { scr: self.scr, pcol: self.pcol, txt: self.txt@, color: self.color }
    }
}

impl TextDim for Editor {
    /// One row: the text.
    open spec fn row_lens(&self) -> Seq<usize> {
        seq![self.txt.len()]
    }

    fn y_len(&self) -> (r: usize) {
        1
    }

    fn x_len(&self, y: usize) -> (r: Option<usize>) {
        if y == 0 {
            Some(self.txt.len())
        } else {
            None
        }
    }
}

impl Editor {
    /// The cursor is valid for the text.
    pub open spec fn wf(&self) -> bool {
        self.pcol.wf(self.scr.outer.spec_x_rng(), self.txt.len())
    }

    /// The place in the text where the next key takes effect.
    pub open spec fn spec_idx(&self) -> int {
        self@.idx()
    }

    /// An editor of `txt`, the cursor at its start.
    pub fn new(scr: &DataScreen, txt: &str, color: Rgb) -> (r: Self)
        ensures
            r.scr == *scr,
            r.txt@ == txt@,
            r.color == color,
            r.pcol.at_start(scr.outer.spec_x_rng()),
            r.wf(),
    {
        Editor {
            color,
            pcol: PosCol::origin(&scr.outer.get_x_rng()),
            txt: chars_of(txt),
            scr: *scr,
        }
    }

    /// Takes a new screen and keeps the place in the text.
    pub fn resize(&mut self, scr: &DataScreen)
        ensures
            final(self).scr == *scr,
            final(self).txt == old(self).txt,
            final(self).color == old(self).color,
            final(self).pcol == PosCol::spec_place(
                scr.outer.spec_x_rng(),
                old(self).spec_idx() as usize,
                old(self).txt.len(),
                old(self).pcol.scroll,
            ),
            final(self).wf(),
            final(self).spec_idx() == old(self).spec_idx(),
    {
        let idx = self.idx();
        self.scr = *scr;
        self.pcol = PosCol::place(&scr.outer.get_x_rng(), idx, self.txt.len(), self.pcol.scroll);
    }

    /// The place in the text where the next key takes effect.
    pub fn idx(&self) -> (r: usize)
        ensures
            r == self.spec_idx(),
    {
        self.pcol.data_idx_cap(&self.scr.outer.get_x_rng(), self.txt.len())
    }

    /// The text.
    pub fn get_text(&self) -> (r: String)
        ensures
            r@ == self.txt@,
    {
        let r = string_of(&self.txt, 0, self.txt.len());
        assert(self.txt@.subrange(0, self.txt.len() as int) == self.txt@);
        r
    }

    /// Moves the cursor left; says whether anything changed.
    pub fn move_left(&mut self, step: u16) -> (changed: bool)
        ensures
            final(self).pcol == old(self).pcol.backward(old(self).scr.spec_x_rng(), step),
            final(self).txt == old(self).txt,
            final(self).scr == old(self).scr,
            final(self).color == old(self).color,
            changed == (final(self).pcol != old(self).pcol),
            final(self)@ == old(self)@.left(step),
            old(self).wf() ==> final(self).wf(),
    {
        self.pcol.move_backward(&self.scr.get_x_rng(), step)
    }

    /// Moves the cursor right; says whether anything changed.
    pub fn move_right(&mut self, step: u16) -> (changed: bool)
        ensures
            final(self).pcol == old(self).pcol.forward(
                old(self).scr.spec_x_rng(),
                old(self).txt.len(),
                step,
            ),
            final(self).txt == old(self).txt,
            final(self).scr == old(self).scr,
            final(self).color == old(self).color,
            changed == (final(self).pcol != old(self).pcol),
            final(self)@ == old(self)@.right(step),
            old(self).wf() ==> final(self).wf(),
    {
        self.pcol.move_forward(&self.scr.get_x_rng(), self.txt.len(), step)
    }

    /// Removes the character under the cursor; says whether there was one.
    pub fn delete(&mut self) -> (removed: bool)
        ensures
            removed == (old(self).spec_idx() < old(self).txt.len()),
            final(self)@ == old(self)@.deleted(),
            removed ==> final(self).txt@ == old(self).txt@.remove(old(self).spec_idx()),
            removed ==> final(self).pcol == PosCol::spec_place(
                old(self).scr.outer.spec_x_rng(),
                old(self).spec_idx() as usize,
                (old(self).txt.len() - 1) as usize,
                old(self).pcol.scroll,
            ),
            !removed ==> *final(self) == *old(self),
            final(self).scr == old(self).scr,
            final(self).color == old(self).color,
            removed ==> final(self).wf() && final(self).spec_idx() == old(self).spec_idx(),
    {
        let idx = self.idx();
        if idx >= self.txt.len() {
            return false;
        }
        self.txt.remove(idx);
        self.pcol = PosCol::place(
            &self.scr.outer.get_x_rng(),
            idx,
            self.txt.len(),
            self.pcol.scroll,
        );
        true
    }

    /// Removes the character before the cursor and moves the cursor onto
    /// its place; says whether there was one.
    pub fn backspace(&mut self) -> (removed: bool)
        ensures
            removed == (old(self).spec_idx() > 0),
            final(self)@ == old(self)@.backspaced(),
            removed ==> final(self).txt@ == old(self).txt@.remove(old(self).spec_idx() - 1),
            removed ==> final(self).pcol == PosCol::spec_place(
                old(self).scr.outer.spec_x_rng(),
                (old(self).spec_idx() - 1) as usize,
                (old(self).txt.len() - 1) as usize,
                old(self).pcol.scroll,
            ),
            !removed ==> *final(self) == *old(self),
            final(self).scr == old(self).scr,
            final(self).color == old(self).color,
            removed ==> final(self).wf() && final(self).spec_idx() == old(self).spec_idx() - 1,
    {
        let idx = self.idx();
        if idx == 0 {
            return false;
        }
        self.txt.remove(idx - 1);
        self.pcol = PosCol::place(
            &self.scr.outer.get_x_rng(),
            idx - 1,
            self.txt.len(),
            self.pcol.scroll,
        );
        true
    }

    /// Puts `c` into the text at the cursor and moves the cursor past it.
    pub fn insert(&mut self, c: char) -> (inserted: bool)
        requires
            old(self).txt.len() < usize::MAX,
        ensures
            inserted,
            final(self)@ == old(self)@.inserted(c),
            final(self).txt@ == old(self).txt@.insert(old(self).spec_idx(), c),
            final(self).pcol == PosCol::spec_place(
                old(self).scr.outer.spec_x_rng(),
                (old(self).spec_idx() + 1) as usize,
                (old(self).txt.len() + 1) as usize,
                old(self).pcol.scroll,
            ),
            final(self).scr == old(self).scr,
            final(self).color == old(self).color,
            final(self).wf(),
            final(self).spec_idx() == old(self).spec_idx() + 1,
    {
        let idx = self.idx();
        self.txt.insert(idx, c);
        self.pcol = PosCol::place(
            &self.scr.outer.get_x_rng(),
            idx + 1,
            self.txt.len(),
            self.pcol.scroll,
        );
        true
    }
}

/// A character that is put in and then removed with backspace leaves the
/// text as it was and the cursor on the place where it was.
pub proof fn backspace_undoes_insert(e: EditorView, c: char)
    requires
        e.scr.outer.spec_x_rng().wf(),
        e.txt.len() < usize::MAX,
    ensures
        e.inserted(c).backspaced().txt == e.txt,
        e.inserted(c).backspaced().idx() == e.idx(),
{
    let rng = e.scr.outer.spec_x_rng();
    let i = e.idx();
    let t = e.txt.insert(i, c);
    let e1 = e.inserted(c);
    crate::pos::placed_shows_index(rng, (i + 1) as usize, t.len() as usize, e.pcol.scroll);
    assert(e1.idx() == i + 1);
    assert(t.remove(i) =~= e.txt);
    let e2 = e1.backspaced();
    crate::pos::placed_shows_index(rng, i as usize, e.txt.len() as usize, e1.pcol.scroll);
    assert(e2.txt == e.txt);
}

} // verus!
