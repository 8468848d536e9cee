//! A document as it is shown: its lines with their colours, the rows that
//! the lines are wrapped into for the width of the screen, and the cursor
//! that moves over the rows.

use vstd::prelude::*;
use vstd::string::StrSliceExecFns;
use crate::cfg::Rgb;
use crate::pos::{Pos, TextDim};
use crate::screen::DataScreen;
use crate::text::{wrap, wrap_rows, tag_all, tag_all_in_order, push_rows};

verus! {

/// A line of a document as it is shown.
#[derive(Clone, Debug, PartialEq, Eq)]
pub struct DisplayText {
    pub color: Rgb,
    pub text: String,
    /// Whether the line is wrapped to the width of the screen.
    pub wrap: bool,
}

impl DisplayText {
    pub fn new(text: &str, color: Rgb, wrap: bool) -> (r: Self)
        ensures
            r.text@ == text@,
            r.color == color,
            r.wrap == wrap,
    {
        DisplayText { text: text.to_owned(), color, wrap }
    }

    /// An empty white line that is not wrapped.
    pub fn default() -> (r: Self)
        ensures
            r.text@ == Seq::<char>::empty(),
            r.color == Rgb(255, 255, 255),
            !r.wrap,
    {
        DisplayText { text: String::new(), color: Rgb(255, 255, 255), wrap: false }
    }

    /// The rows that the line takes at width `w`: the rows it wraps into,
    /// or the line as it is where it is not wrapped.
    pub open spec fn rows(&self, w: nat) -> Seq<Seq<char>> {
        if self.wrap {
            wrap_rows(self.text@, w)
        } else {
            seq![self.text@]
        }
    }
}

/// The rows of the first `n` lines, each with the index of its line.
pub open spec fn rows_of(lines: Seq<DisplayText>, w: nat, n: nat) -> Seq<(usize, Seq<char>)> {
    tag_all(lines.map_values(|t: DisplayText| t.rows(w)), n)
}

/// Wraps the lines that are to be wrapped; each row comes with the index
/// of its line.
pub fn wrap_list(lines: &Vec<DisplayText>, w: u16) -> (r: Vec<(usize, String)>)
    ensures
        r.deep_view() == rows_of(lines@, w as nat, lines.len() as nat),
{
    let mut display: Vec<(usize, String)> = Vec::new();
    let mut i: usize = 0;
    assert(display.deep_view() =~= Seq::empty());
    while i < lines.len()
        invariant
            i <= lines.len(),
            display.deep_view() == rows_of(lines@, w as nat, i as nat),
        decreases lines.len() - i,
    {
        let v = if lines[i].wrap {
            wrap(lines[i].text.as_str(), w)
        } else {
            let mut one: Vec<String> = Vec::new();
            one.push(lines[i].text.clone());
            assert(one.deep_view() =~= seq![lines@[i as int].text@]);
            one
        };
        assert(v.deep_view() == lines@[i as int].rows(w as nat));
        push_rows(&mut display, &v, i);
        i += 1;
    }
    display
}

/// A document as it is shown on a screen.
#[derive(Clone, Debug, PartialEq, Eq)]
pub struct DisplayDoc {
    pub scr: DataScreen,
    /// The lines.
    pub src: Vec<DisplayText>,
    /// The rows, each with the index of its line.
    pub txt: Vec<(usize, String)>,
}

impl TextDim for DisplayDoc {
    open spec fn row_lens(&self) -> Seq<usize> {
        Seq::new(self.txt@.len(), |i: int| self.txt@[i].1@.len() as usize)
    }

    fn y_len(&self) -> (r: usize) {
        self.txt.len()
    }

    fn x_len(&self, y: usize) -> (r: Option<usize>) {
        if y < self.txt.len() {
            Some(self.txt[y].1.as_str().unicode_len())
        } else {
            None
        }
    }
}

impl DisplayDoc {
    /// The rows are those of the lines at the width of the screen.
    pub open spec fn wf(&self) -> bool {
        self.txt.deep_view() == rows_of(self.src@, self.scr.outer.w as nat, self.src.len() as nat)
    }

    /// The line that the row under the cursor of `pos` comes from, if the
    /// cursor is on a row.
    pub open spec fn spec_select(&self, pos: Pos) -> Option<usize> {
        if pos.spec_y_idx(self.scr) < self.txt.len() {
            Some(self.txt[pos.spec_y_idx(self.scr)].0)
        } else {
            None
        }
    }

    /// The document of the given lines on the given screen.
    pub fn new(src: Vec<DisplayText>, scr: &DataScreen) -> (r: Self)
        ensures
            r.src == src,
            r.scr == *scr,
            r.wf(),
    {
        let txt = wrap_list(&src, scr.outer.w);
        DisplayDoc { txt, src, scr: *scr }
    }

    /// A document without lines.
    pub fn default(scr: &DataScreen) -> (r: Self)
        ensures
            r.src@.len() == 0,
            r.txt@.len() == 0,
            r.scr == *scr,
            r.wf(),
    {
        let r = DisplayDoc { src: Vec::new(), txt: Vec::new(), scr: *scr };
        assert(r.txt.deep_view() =~= Seq::empty());
        r
    }

    /// Takes a new screen and wraps the lines to its width.
    pub fn resize(&mut self, scr: &DataScreen)
        ensures
            final(self).src == old(self).src,
            final(self).scr == *scr,
            final(self).wf(),
    {
        self.scr = *scr;
        self.txt = wrap_list(&self.src, self.scr.outer.w);
    }

    /// The line that the row under the cursor comes from.
    pub fn select(&self, pos: &Pos) -> (r: Option<usize>)
        ensures
            r == self.spec_select(*pos),
    {
        let idx = pos.y.data_idx(&self.scr.outer.get_y_rng());
        if idx < self.txt.len() {
            Some(self.txt[idx].0)
        } else {
            None
        }
    }
}

/// The line that a row comes from is one of the lines of the document.
pub proof fn select_names_a_line(doc: DisplayDoc, pos: Pos)
    requires
        doc.wf(),
    ensures
        doc.spec_select(pos) is Some ==> doc.spec_select(pos)->0 < doc.src.len(),
{
    tag_all_in_order(
        doc.src@.map_values(|t: DisplayText| t.rows(doc.scr.outer.w as nat)),
        doc.src.len() as nat,
    );
    if doc.spec_select(pos) is Some {
        let i = pos.spec_y_idx(doc.scr);
        assert(doc.txt.deep_view()[i].0 == doc.txt[i].0);
    }
}

/// A document with the cursor that moves over it.
#[derive(Clone, Debug, PartialEq, Eq)]
pub struct Reader {
    pub doc: DisplayDoc,
    pub pos: Pos,
}

impl Reader {
    /// The rows are those of the lines, and the cursor is valid for them.
    pub open spec fn wf(&self) -> bool {
        self.doc.wf() && self.pos.wf(self.doc.scr, self.doc.row_lens())
    }

    /// The document of the given lines, the cursor at its top left.
    pub fn new(scr: &DataScreen, src: Vec<DisplayText>) -> (r: Self)
        ensures
            r.doc.src == src,
            r.doc.scr == *scr,
            r.doc.wf(),
            r.pos.x.at_start(scr.outer.spec_x_rng()),
            r.pos.y.at_start(scr.outer.spec_y_rng()),
    {
        Reader { doc: DisplayDoc::new(src, scr), pos: Pos::origin(&scr.outer) }
    }

    /// Takes a new screen: the lines are wrapped to its width and the
    /// cursor is brought into the new rows.
    pub fn resize(&mut self, scr: &DataScreen)
        ensures
            final(self).doc.src == old(self).doc.src,
            final(self).doc.scr == *scr,
            final(self).doc.wf(),
            final(self).pos == old(self).pos.resized(*scr, final(self).doc.row_lens()),
            final(self).wf(),
    {
        self.doc.resize(scr);
        self.pos.resize(scr, &self.doc);
        proof {
            assert(self.doc.row_lens().len() == self.doc.txt.len());
            crate::pos::resize_gives_wf(old(self).pos, *scr, self.doc.row_lens());
        }
    }

    pub fn move_left(&mut self, step: u16) -> (changed: bool)
        ensures
            final(self).doc == old(self).doc,
            final(self).pos == old(self).pos.left(old(self).doc.scr, step),
            changed == (final(self).pos != old(self).pos),
    {
        self.pos.move_left(&self.doc.scr, step)
    }

    pub fn move_right(&mut self, step: u16) -> (changed: bool)
        ensures
            final(self).doc == old(self).doc,
            final(self).pos == old(self).pos.right(old(self).doc.scr, old(self).doc.row_lens(), step),
            changed == (final(self).pos != old(self).pos),
    {
        self.pos.move_right(&self.doc.scr, &self.doc, step)
    }

    pub fn move_up(&mut self, step: u16) -> (changed: bool)
        ensures
            final(self).doc == old(self).doc,
            final(self).pos == old(self).pos.up(old(self).doc.scr, old(self).doc.row_lens(), step),
            changed == (final(self).pos.y != old(self).pos.y),
    {
        self.pos.move_up(&self.doc.scr, &self.doc, step)
    }

    pub fn move_down(&mut self, step: u16) -> (changed: bool)
        ensures
            final(self).doc == old(self).doc,
            final(self).pos == old(self).pos.down(old(self).doc.scr, old(self).doc.row_lens(), step),
            changed == (final(self).pos.y != old(self).pos.y),
    {
        self.pos.move_down(&self.doc.scr, &self.doc, step)
    }

    /// The line that the row under the cursor comes from.
    pub fn select(&self) -> (r: Option<usize>)
        ensures
            r == self.doc.spec_select(self.pos),
    {
        self.doc.select(&self.pos)
    }
}

} // verus!
