//! The tabs of the application: which of them is shown, and where key
//! presses go. Cycling, deleting and the switch between the tabs and the
//! application's own keys are decided here; what needs the network or the
//! disk is handed on as a message.

use vstd::prelude::*;
use crate::address::Url;
use crate::cfg::{Config, KeyParams};
use crate::msg::{Focus, Key, ViewMsg, ViewMsgView};
use crate::screen::{DataScreen, Screen, inset};
use crate::pos::TextDim;
use crate::tab::{Tab, view_msg};
use crate::text::push_char;

verus! {

/// The digit of a number below 10.
pub open spec fn digit(d: nat) -> char {
    if d == 0 {
        '0'
    } else if d == 1 {
        '1'
    } else if d == 2 {
        '2'
    } else if d == 3 {
        '3'
    } else if d == 4 {
        '4'
    } else if d == 5 {
        '5'
    } else if d == 6 {
        '6'
    } else if d == 7 {
        '7'
    } else if d == 8 {
        '8'
    } else {
        '9'
    }
}

/// A number in decimal digits.
pub open spec fn decimal(n: nat) -> Seq<char>
    decreases n,
{
    if n < 10 {
        seq![digit(n)]
    } else {
        decimal(n / 10).push(digit(n % 10))
    }
}

/// The line at the top of the screen: the number of the tab shown, counted
/// from 1, the number of tabs, and the address of the tab shown.
pub open spec fn banner(curindex: usize, totaltab: usize, url: Seq<char>) -> Seq<char> {
    decimal((curindex + 1) as nat) + seq!['/'] + decimal(totaltab as nat) + seq![':', ' '] + url
}

/// Which tab is shown after a message, of `len` tabs of which `cur` was
/// shown, and whether the tab that was shown is gone. Cycling goes round;
/// the last tab is never deleted, and after a deletion the last tab is
/// shown.
pub open spec fn processed(cur: usize, len: nat, msg: ViewMsgView) -> (usize, bool) {
    match msg {
        ViewMsgView::CycleLeft => (
            if cur == 0 {
                if len > 0 {
                    (len - 1) as usize
                } else {
                    0
                }
            } else {
                (cur - 1) as usize
            },
            false,
        ),
        ViewMsgView::CycleRight => (
            if cur + 1 >= len {
                0
            } else {
                (cur + 1) as usize
            },
            false,
        ),
        ViewMsgView::DeleteMe => if len > 1 && cur < len {
            ((len - 2) as usize, true)
        } else {
            (cur, false)
        },
        _ => (cur, false),
    }
}

/// What a key does while the application has the keys: escape and the key
/// for the tabs hand them back, the key for the configuration asks for it
/// to be read again and hands them back too.
pub open spec fn global_step(key: Key, keys: KeyParams) -> Option<ViewMsgView> {
    match key {
        Key::Esc => Some(ViewMsgView::Default),
        Key::Char(c) => if c == keys.tab_view {
            Some(ViewMsgView::Default)
        } else if c == keys.load_cfg {
            Some(ViewMsgView::ReloadConfig)
        } else {
            None
        },
        _ => None,
    }
}

/// The part of a terminal of the given size that is drawn on: the whole
/// less the margin, off the right and the left and then off the top and
/// the bottom.
pub open spec fn drawn(w: u16, h: u16, margin: u16) -> Screen {
    (Screen { x: 0, y: 0, w, h }).spec_crop_east(margin).spec_crop_west(margin).spec_crop_north(
        margin,
    ).spec_crop_south(margin)
}

/// The screens of the header and of the tabs in a terminal of the given
/// size. The header has the first two rows of the part that is drawn on and
/// no scroll margin; the tabs have the rest, with the scroll margin that is
/// configured.
pub fn get_frames(w: u16, h: u16, cfg: &Config) -> (r: (DataScreen, DataScreen))
    ensures
        r.0.outer == drawn(w, h, cfg.format.margin).spec_crop_south(
            if h >= 2 {
                (h - 2) as u16
            } else {
                0
            },
        ),
        r.1.outer == drawn(w, h, cfg.format.margin).spec_crop_north(2),
        r.0.spec_x_rng().inner == r.0.spec_x_rng().outer,
        r.0.spec_y_rng().inner == r.0.spec_y_rng().outer,
        r.1.spec_x_rng().inner == inset(r.1.outer.spec_x_rng(), cfg.scroll_at),
        r.1.spec_y_rng().inner == inset(r.1.outer.spec_y_rng(), cfg.scroll_at),
        r.0.wf(),
        r.1.wf(),
{
    let rect = Screen::origin(w, h).crop_x(cfg.format.margin).crop_y(cfg.format.margin);
    let tab_rect = rect.crop_north(2);
    let hdr_rect = rect.crop_south(h.saturating_sub(2));
    let hdr = DataScreen::new(&hdr_rect, 0, 0);
    (hdr, DataScreen::new(&tab_rect, cfg.scroll_at, cfg.scroll_at))
}

/// Appends a number in decimal digits.
fn push_decimal(s: &mut String, n: usize)
    ensures
        final(s)@ == old(s)@ + decimal(n as nat),
    decreases n,
{
    if n >= 10 {
        push_decimal(s, n / 10);
    }
    let d = n % 10;
    let c = if d == 0 {
        '0'
    } else if d == 1 {
        '1'
    } else if d == 2 {
        '2'
    } else if d == 3 {
        '3'
    } else if d == 4 {
        '4'
    } else if d == 5 {
        '5'
    } else if d == 6 {
        '6'
    } else if d == 7 {
        '7'
    } else if d == 8 {
        '8'
    } else {
        '9'
    };
    let ghost before = s@;
    push_char(s, c);
    assert(s@ =~= old(s)@ + decimal(n as nat));
}

/// The tabs, the one that is shown, and where the keys go.
#[derive(Debug)]
pub struct TabServer {
    pub scr: DataScreen,
    pub tabs: Vec<Tab>,
    /// Index of the tab that is shown.
    pub curindex: usize,
    pub focus: Focus,
}

impl TabServer {
    /// There is a tab, and the tab that is shown is one of the tabs.
    pub open spec fn wf(&self) -> bool {
        self.curindex < self.tabs.len()
    }

    /// What a new screen does to a tab: document, dialog and what the
    /// dialog is about stay, the lines are wrapped to the new width, and the
    /// cursor is brought into the new rows.
    pub open spec fn resized(old_tab: Tab, new_tab: Tab, scr: DataScreen) -> bool {
        &&& new_tab.scr == scr
        &&& new_tab.url == old_tab.url
        &&& new_tab.doc == old_tab.doc
        &&& new_tab.action == old_tab.action
        &&& new_tab.reader.doc.src == old_tab.reader.doc.src
        &&& new_tab.reader.doc.scr == scr
        &&& new_tab.reader.wf()
        &&& new_tab.reader.pos == old_tab.reader.pos.resized(scr, new_tab.reader.doc.row_lens())
        &&& old_tab.dialog is None <==> new_tab.dialog is None
        &&& old_tab.shows_doc() ==> new_tab.shows_doc()
    }

    /// One tab, shown, with the keys.
    pub fn new(scr: &DataScreen, tab: Tab) -> (r: Self)
        ensures
            r.scr == *scr,
            r.tabs@ == seq![tab],
            r.curindex == 0,
            r.focus == Focus::Tab,
            r.wf(),
    {
        let mut tabs: Vec<Tab> = Vec::new();
        tabs.push(tab);
        TabServer { scr: *scr, tabs, curindex: 0, focus: Focus::Tab }
    }

    /// Adds a tab after the others and shows it.
    pub fn open(&mut self, tab: Tab)
        ensures
            final(self).tabs@ == old(self).tabs@.push(tab),
            final(self).curindex == old(self).tabs.len(),
            final(self).scr == old(self).scr,
            final(self).focus == old(self).focus,
            final(self).wf(),
    {
        self.tabs.push(tab);
        self.curindex = self.tabs.len() - 1;
    }

    /// Gives every tab the new screen.
    pub fn resize(&mut self, scr: &DataScreen)
        ensures
            final(self).scr == *scr,
            final(self).curindex == old(self).curindex,
            final(self).focus == old(self).focus,
            final(self).tabs.len() == old(self).tabs.len(),
            forall|k: int|
                0 <= k < final(self).tabs.len() ==> Self::resized(
                    old(self).tabs[k],
                    #[trigger] final(self).tabs[k],
                    *scr,
                ),
    {
        self.scr = *scr;
        let mut i: usize = 0;
        while i < self.tabs.len()
            invariant
                i <= self.tabs.len(),
                self.scr == *scr,
                self.curindex == old(self).curindex,
                self.focus == old(self).focus,
                self.tabs.len() == old(self).tabs.len(),
                forall|k: int|
                    0 <= k < i ==> Self::resized(old(self).tabs[k], #[trigger] self.tabs[k], *scr),
                forall|k: int| i <= k < self.tabs.len() ==> self.tabs[k] == old(self).tabs[k],
            decreases self.tabs.len() - i,
        {
            self.tabs[i].resize(scr);
            i += 1;
        }
    }

    /// Takes what a key press asked for as far as it concerns the tabs
    /// themselves: which of them is shown, whether the one shown goes, and
    /// whether the keys go to the application.
    pub fn process_view_msg(&mut self, msg: &ViewMsg)
        ensures
            final(self).scr == old(self).scr,
            final(self).curindex == processed(old(self).curindex, old(self).tabs@.len(), msg@).0,
            final(self).tabs@ == (if processed(old(self).curindex, old(self).tabs@.len(), msg@).1 {
                old(self).tabs@.remove(old(self).curindex as int)
            } else {
                old(self).tabs@
            }),
            final(self).focus == (if msg@ is Global {
                Focus::Global
            } else {
                old(self).focus
            }),
            old(self).wf() ==> final(self).wf(),
    {
        match msg {
            ViewMsg::Global => {
                self.focus = Focus::Global;
            },
            ViewMsg::DeleteMe => {
                if self.tabs.len() > 1 && self.curindex < self.tabs.len() {
                    self.tabs.remove(self.curindex);
                    self.curindex = self.tabs.len() - 1;
                }
            },
            ViewMsg::CycleLeft => {
                if self.curindex == 0 {
                    self.curindex = self.tabs.len().saturating_sub(1);
                } else {
                    self.curindex -= 1;
                }
            },
            ViewMsg::CycleRight => {
                if self.curindex >= self.tabs.len() || self.curindex + 1 >= self.tabs.len() {
                    self.curindex = 0;
                } else {
                    self.curindex += 1;
                }
            },
            _ => {},
        }
    }

    /// Takes a key press while the application has the keys.
    pub fn update_global(&mut self, key: &Key, cfg: &Config) -> (r: Option<ViewMsg>)
        ensures
            view_msg(r) == global_step(*key, cfg.keys),
            final(self).focus == (if r is Some {
                Focus::Tab
            } else {
                old(self).focus
            }),
            final(self).tabs == old(self).tabs,
            final(self).curindex == old(self).curindex,
            final(self).scr == old(self).scr,
    {
        match key {
            Key::Esc => {
                self.focus = Focus::Tab;
                Some(ViewMsg::Default)
            },
            Key::Char(c) => {
                if *c == cfg.keys.tab_view {
                    self.focus = Focus::Tab;
                    Some(ViewMsg::Default)
                } else if *c == cfg.keys.load_cfg {
                    self.focus = Focus::Tab;
                    Some(ViewMsg::ReloadConfig)
                } else {
                    None
                }
            },
            _ => None,
        }
    }

    /// Takes a key press: it goes to the application's own keys or to the
    /// tab that is shown, and what that asks for is taken as far as it
    /// concerns the tabs themselves. Says what was asked for.
    pub fn update(&mut self, key: &Key, cfg: &Config) -> (r: Option<ViewMsg>)
        ensures
            final(self).scr == old(self).scr,
            old(self).focus is Global ==> {
                &&& view_msg(r) == global_step(*key, cfg.keys)
                &&& final(self).tabs == old(self).tabs
                &&& final(self).curindex == old(self).curindex
                &&& final(self).focus == (if r is Some {
                    Focus::Tab
                } else {
                    Focus::Global
                })
            },
            old(self).focus is Tab && !old(self).wf() ==> r is None && *final(self) == *old(self),
            old(self).focus is Tab && old(self).wf() ==> {
                let cur = old(self).curindex as int;
                let len = old(self).tabs@.len();
                &&& exists|t: Tab|
                    {
                        &&& if old(self).tabs[cur].dialog is Some {
                            Tab::prompting_step(old(self).tabs[cur], t, r, *key)
                        } else {
                            Tab::browsing_step(old(self).tabs[cur], t, r, *key, *cfg)
                        }
                        &&& t.url == old(self).tabs[cur].url
                        &&& t.doc == old(self).tabs[cur].doc
                        &&& r is Some ==> final(self).tabs@ == (if processed(
                            old(self).curindex,
                            len,
                            r->0@,
                        ).1 {
                            old(self).tabs@.remove(cur)
                        } else {
                            old(self).tabs@.update(cur, t)
                        })
                        &&& r is None ==> final(self).tabs@ == old(self).tabs@.update(cur, t)
                    }
                &&& r is Some ==> final(self).curindex == processed(old(self).curindex, len, r->0@).0
                &&& r is None ==> final(self).curindex == old(self).curindex
                &&& final(self).focus == (if r is Some && r->0@ is Global {
                    Focus::Global
                } else {
                    Focus::Tab
                })
                &&& final(self).wf()
            },
    {
        match self.focus {
            Focus::Global => self.update_global(key, cfg),
            Focus::Tab => {
                if self.curindex >= self.tabs.len() {
                    return None;
                }
                let r = self.tabs[self.curindex].update(key, cfg);
                let ghost mid = self.tabs@;
                let ghost t = self.tabs[self.curindex as int];
                assert(mid =~= old(self).tabs@.update(old(self).curindex as int, t));
                match &r {
                    Some(msg) => {
                        self.process_view_msg(msg);
                        proof {
                            if processed(old(self).curindex, old(self).tabs@.len(), msg@).1 {
                                assert(mid.remove(old(self).curindex as int) =~= old(
                                    self,
                                ).tabs@.remove(old(self).curindex as int));
                            }
                        }
                    },
                    None => {},
                }
                r
            },
        }
    }

    /// The line at the top of the screen.
    pub fn bannerstr(curindex: usize, totaltab: usize, url: &Url) -> (r: String)
        requires
            curindex < usize::MAX,
        ensures
            r@ == banner(curindex, totaltab, url@),
    {
        let mut r = String::new();
        push_decimal(&mut r, curindex + 1);
        push_char(&mut r, '/');
        push_decimal(&mut r, totaltab);
        push_char(&mut r, ':');
        push_char(&mut r, ' ');
        r.append(url.as_str());
        assert(r@ =~= banner(curindex, totaltab, url@));
        r
    }

    /// A line of dashes as wide as the screen.
    pub fn bannerline(w: u16) -> (r: String)
        ensures
            r@ == Seq::new(w as nat, |i: int| '-'),
    {
        let mut r = String::new();
        let mut i: u16 = 0;
        while i < w
            invariant
                i <= w,
                r@ == Seq::new(i as nat, |k: int| '-'),
            decreases w - i,
        {
            push_char(&mut r, '-');
            i += 1;
            assert(r@ =~= Seq::new(i as nat, |k: int| '-'));
        }
        r
    }
}

} // verus!
