//! A dialog: a prompt and the way it is answered. An acknowledgement is
//! answered by any key, a question by the key for yes or the key for no, a
//! request for text by a line that is edited and then entered. Escape cancels
//! every dialog.

use vstd::prelude::*;
use crate::cfg::Config;
use crate::editor::{Editor, EditorView};
use crate::msg::{InputMsg, InputMsgView, Key};
use crate::screen::DataScreen;

verus! {

/// How a dialog is answered.
#[derive(Clone, Debug, PartialEq, Eq)]
pub enum InputType {
    /// By any key; the one given is shown as the key to press.
    Ack(char),
    /// By the key for yes or the key for no.
    Ask(char, char),
    /// By a text.
    Text(Editor),
}

/// `InputType` as plain values.
pub enum InputView {
    Ack(char),
    Ask(char, char),
    Text(EditorView),
}

impl View for InputType {
    type V = InputView;

    open spec fn view(&self) -> InputView {
        match self {
            InputType::Ack(a) => InputView::Ack(*a),
            InputType::Ask(y, n) => InputView::Ask(*y, *n),
            InputType::Text(e) => InputView::Text(e@),
        }
    }
}

/// An answer as plain values.
pub open spec fn msg_view(r: Option<InputMsg>) -> Option<InputMsgView> {
    match r {
        Some(m) => Some(m@),
        None => None,
    }
}

/// What becomes of the input of a dialog when a key other than escape is
/// pressed: a text under edit takes the key, the others stay as they are.
pub open spec fn input_after(iv: InputView, key: Key) -> InputView {
    match iv {
        InputView::Text(e) => match key {
            Key::Left => InputView::Text(e.left(1)),
            Key::Right => InputView::Text(e.right(1)),
            Key::Delete => InputView::Text(e.deleted()),
            Key::Backspace => InputView::Text(e.backspaced()),
            Key::Char(c) => if e.txt.len() < usize::MAX {
                InputView::Text(e.inserted(c))
            } else {
                iv
            },
            _ => iv,
        },
        _ => iv,
    }
}

/// What a dialog answers to a key other than escape. A text under edit is
/// handed over on enter and says so when a key changed it; an
/// acknowledgement is answered by any key; a question by its two keys, the
/// one for yes first.
pub open spec fn input_answer(iv: InputView, key: Key) -> Option<InputMsgView> {
    match iv {
        InputView::Text(e) => match key {
            Key::Enter => Some(InputMsgView::Text(e.txt)),
            Key::Left => if e.left(1).pcol != e.pcol {
                Some(InputMsgView::Default)
            } else {
                None
            },
            Key::Right => if e.right(1).pcol != e.pcol {
                Some(InputMsgView::Default)
            } else {
                None
            },
            Key::Delete => if e.idx() < e.txt.len() {
                Some(InputMsgView::Default)
            } else {
                None
            },
            Key::Backspace => if e.idx() > 0 {
                Some(InputMsgView::Default)
            } else {
                None
            },
            Key::Char(c) => if e.txt.len() < usize::MAX {
                Some(InputMsgView::Default)
            } else {
                None
            },
            _ => None,
        },
        InputView::Ack(_) => Some(InputMsgView::Ack),
        InputView::Ask(yes, no) => match key {
            Key::Char(c) => if c == yes {
                Some(InputMsgView::Yes)
            } else if c == no {
                Some(InputMsgView::No)
            } else {
                None
            },
            _ => None,
        },
    }
}

/// What a dialog answers to a key: escape cancels.
pub open spec fn answer(iv: InputView, key: Key) -> Option<InputMsgView> {
    if key is Esc {
        Some(InputMsgView::Cancel)
    } else {
        input_answer(iv, key)
    }
}

/// What becomes of the input of a dialog when a key is pressed.
pub open spec fn after(iv: InputView, key: Key) -> InputView {
    if key is Esc {
        iv
    } else {
        input_after(iv, key)
    }
}

/// A prompt and the way it is answered.
#[derive(Clone, Debug, PartialEq, Eq)]
pub struct Dialog {
    pub scr: DataScreen,
    pub prompt: String,
    pub input_type: InputType,
}

impl Dialog {
    /// A dialog that asks for a text.
    pub fn text(scr: &DataScreen, cfg: &Config, prompt: &str) -> (r: Self)
        ensures
            r.scr == *scr,
            r.prompt@ == prompt@,
            r.input_type matches InputType::Text(e) && e.txt@.len() == 0 && e.scr == *scr && e.wf()
                && e.pcol.at_start(scr.outer.spec_x_rng()) && e.color == cfg.colors.dialog,
    {
        let empty = String::new();
        Dialog {
            scr: *scr,
            prompt: prompt.to_owned(),
            input_type: InputType::Text(Editor::new(scr, empty.as_str(), cfg.colors.get_dialog())),
        }
    }

    /// A dialog that is acknowledged.
    pub fn ack(scr: &DataScreen, cfg: &Config, prompt: &str) -> (r: Self)
        ensures
            r.scr == *scr,
            r.prompt@ == prompt@,
            r.input_type == InputType::Ack(cfg.keys.dialog.ack),
    {
        Dialog {
            scr: *scr,
            prompt: prompt.to_owned(),
            input_type: InputType::Ack(cfg.keys.dialog.ack),
        }
    }

    /// A dialog that is answered with yes or no.
    pub fn ask(scr: &DataScreen, cfg: &Config, prompt: &str) -> (r: Self)
        ensures
            r.scr == *scr,
            r.prompt@ == prompt@,
            r.input_type == InputType::Ask(cfg.keys.dialog.yes, cfg.keys.dialog.no),
    {
        Dialog {
            scr: *scr,
            prompt: prompt.to_owned(),
            input_type: InputType::Ask(cfg.keys.dialog.yes, cfg.keys.dialog.no),
        }
    }

    /// Takes a new screen; a text under edit keeps its place.
    pub fn resize(&mut self, scr: &DataScreen)
        ensures
            final(self).scr == *scr,
            final(self).prompt == old(self).prompt,
            old(self).input_type is Ack ==> final(self).input_type == old(self).input_type,
            old(self).input_type is Ask ==> final(self).input_type == old(self).input_type,
            old(self).input_type matches InputType::Text(e) ==> (final(self).input_type matches InputType::Text(
                e2,
            ) && e2.txt == e.txt && e2.scr == *scr && e2.color == e.color && e2.pcol
                == crate::pos::PosCol::spec_place(
                scr.outer.spec_x_rng(),
                e.spec_idx() as usize,
                e.txt.len(),
                e.pcol.scroll,
            ) && e2.wf() && e2.spec_idx() == e.spec_idx()),
    {
        self.scr = *scr;
        match &mut self.input_type {
            InputType::Text(editor) => {
                editor.resize(scr);
            },
            _ => {},
        }
    }

    /// Takes a key press; says what the dialog answers, if anything.
    pub fn update(&mut self, key: &Key) -> (r: Option<InputMsg>)
        ensures
            msg_view(r) == answer(old(self).input_type@, *key),
            final(self).input_type@ == after(old(self).input_type@, *key),
            final(self).scr == old(self).scr,
            final(self).prompt == old(self).prompt,
    {
        match key {
            Key::Esc => Some(InputMsg::Cancel),
            _ => self.update_input(key),
        }
    }

    /// Takes a key press other than escape.
    pub fn update_input(&mut self, key: &Key) -> (r: Option<InputMsg>)
        ensures
            msg_view(r) == input_answer(old(self).input_type@, *key),
            final(self).input_type@ == input_after(old(self).input_type@, *key),
            final(self).scr == old(self).scr,
            final(self).prompt == old(self).prompt,
    {
        match &mut self.input_type {
            InputType::Text(editor) => match key {
                Key::Enter => Some(InputMsg::Text(editor.get_text())),
                Key::Left => if editor.move_left(1) {
                    Some(InputMsg::Default)
                } else {
                    None
                },
                Key::Right => if editor.move_right(1) {
                    Some(InputMsg::Default)
                } else {
                    None
                },
                Key::Delete => if editor.delete() {
                    Some(InputMsg::Default)
                } else {
                    None
                },
                Key::Backspace => if editor.backspace() {
                    Some(InputMsg::Default)
                } else {
                    None
                },
                Key::Char(c) => if editor.txt.len() < usize::MAX {
                    editor.insert(*c);
                    Some(InputMsg::Default)
                } else {
                    None
                },
                _ => None,
            },
            InputType::Ack(_) => Some(InputMsg::Ack),
            InputType::Ask(yes, no) => match key {
                Key::Char(c) => if *c == *yes {
                    Some(InputMsg::Yes)
                } else if *c == *no {
                    Some(InputMsg::No)
                } else {
                    None
                },
                _ => None,
            },
        }
    }
}

} // verus!
