//! One tab: a document, the view on it, and at most one dialog. A tab is
//! browsing when it has no dialog and prompting when it has one. Responses
//! and key presses move it between the two; what has to be fetched is
//! handed to whoever runs the tab as a message, and the response is handed
//! back with `receive`.

use vstd::prelude::*;
use vstd::string::StringExecFns;
use crate::address::{Url, join_if_relative, plain_url, resolve, url_parse, url_with_query, byte_len,
    MAX_PART};
use crate::cfg::{Config, ColorParams, KeyParams, style_of};
use crate::client::{NetworkError, describe_error, error_text};
use crate::dialog::{Dialog, InputType, InputView, answer, after};
use crate::gemtext::{GemTextLine, Heading, Scheme, Line, Target, parse_doc, doc_of};
use crate::pos::TextDim;
use crate::msg::{Action, ActionView, InputMsg, InputMsgView, Key, ViewMsg, ViewMsgView};
use crate::reader::{DisplayText, Reader};
use crate::screen::DataScreen;
use crate::status::{Status, Class};

verus! {

/// What a key asks of a tab that is browsing.
#[derive(Clone, Copy, Debug, PartialEq, Eq)]
pub enum Command {
    MoveUp,
    MoveDown,
    MoveLeft,
    MoveRight,
    CycleLeft,
    CycleRight,
    Inspect,
    DeleteTab,
    NewTab,
    Global,
    Ignore,
}

/// The command that a key stands for. Where one character is set for
/// several commands, the first in this order is taken.
pub open spec fn command_of(key: Key, keys: KeyParams) -> Command {
    match key {
        Key::Char(c) => if c == keys.tab.move_down {
            Command::MoveDown
        } else if c == keys.tab.move_up {
            Command::MoveUp
        } else if c == keys.tab.move_left {
            Command::MoveLeft
        } else if c == keys.tab.move_right {
            Command::MoveRight
        } else if c == keys.tab.cycle_left {
            Command::CycleLeft
        } else if c == keys.tab.cycle_right {
            Command::CycleRight
        } else if c == keys.tab.delete_tab {
            Command::DeleteTab
        } else if c == keys.tab.new_tab {
            Command::NewTab
        } else if c == keys.tab.inspect {
            Command::Inspect
        } else if c == keys.global {
            Command::Global
        } else {
            Command::Ignore
        },
        _ => Command::Ignore,
    }
}

/// The command that a key stands for.
pub fn command(key: &Key, keys: &KeyParams) -> (r: Command)
    ensures
        r == command_of(*key, *keys),
{
    match key {
        Key::Char(c) => if *c == keys.tab.move_down {
            Command::MoveDown
        } else if *c == keys.tab.move_up {
            Command::MoveUp
        } else if *c == keys.tab.move_left {
            Command::MoveLeft
        } else if *c == keys.tab.move_right {
            Command::MoveRight
        } else if *c == keys.tab.cycle_left {
            Command::CycleLeft
        } else if *c == keys.tab.cycle_right {
            Command::CycleRight
        } else if *c == keys.tab.delete_tab {
            Command::DeleteTab
        } else if *c == keys.tab.new_tab {
            Command::NewTab
        } else if *c == keys.tab.inspect {
            Command::Inspect
        } else if *c == keys.global {
            Command::Global
        } else {
            Command::Ignore
        },
        _ => Command::Ignore,
    }
}

/// The text that a line shows.
pub open spec fn shown_text(line: Line) -> Seq<char> {
    match line {
        Line::Text(s) => s,
        Line::Link(_, label) => label,
        Line::HeadingOne(s) => s,
        Line::HeadingTwo(s) => s,
        Line::HeadingThree(s) => s,
        Line::ListItem(s) => s,
        Line::Quote(s) => s,
        Line::PreFormat(s) => s,
    }
}

/// What a line is, in words.
pub open spec fn kind_label(line: Line) -> Seq<char> {
    match line {
        Line::Text(_) => "Text: "@,
        Line::Link(Target::Unresolved(_), _) => "Unresolved link: "@,
        Line::Link(_, _) => "Link: "@,
        Line::HeadingOne(_) => "Heading 1: "@,
        Line::HeadingTwo(_) => "Heading 2: "@,
        Line::HeadingThree(_) => "Heading 3: "@,
        Line::ListItem(_) => "List item: "@,
        Line::Quote(_) => "Quote: "@,
        Line::PreFormat(_) => "Preformatted: "@,
    }
}

/// What is shown of a line that is inspected and cannot be followed: what
/// it is, and its text; of a link without an address the target as it
/// stands.
pub open spec fn described(line: Line) -> Seq<char> {
    match line {
        Line::Link(Target::Unresolved(raw), _) => kind_label(line) + raw,
        _ => kind_label(line) + shown_text(line),
    }
}

/// The address that a line leads to, if it is a link with an address.
pub open spec fn link_address(line: Line) -> Option<Seq<char>> {
    match line {
        Line::Link(Target::Gemini(a), _) => Some(a),
        Line::Link(Target::Gopher(a), _) => Some(a),
        Line::Link(Target::Http(a), _) => Some(a),
        Line::Link(Target::Unknown(a), _) => Some(a),
        _ => None,
    }
}

/// What a status is, in words.
pub open spec fn class_label(class: Class) -> Seq<char> {
    match class {
        Class::InputExpected(_) => "Input expected: "@,
        Class::Success(_) => "Success: "@,
        Class::Redirect(_) => "Redirect: "@,
        Class::TemporaryFailure(_) => "Temporary failure: "@,
        Class::PermanentFailure(_) => "Permanent failure: "@,
        Class::ClientCertificateRequired(_) => "Certificate required: "@,
        Class::Unknown(_) => "Unknown status: "@,
        Class::Malformed => "Malformed response: "@,
    }
}

/// The text that a line shows.
pub fn line_text(line: &GemTextLine) -> (r: &String)
    ensures
        r@ == shown_text(line@),
{
    match line {
        GemTextLine::Text(s) => s,
        GemTextLine::Link(_, label) => label,
        GemTextLine::Heading(Heading::One(s)) => s,
        GemTextLine::Heading(Heading::Two(s)) => s,
        GemTextLine::Heading(Heading::Three(s)) => s,
        GemTextLine::ListItem(s) => s,
        GemTextLine::Quote(s) => s,
        GemTextLine::PreFormat(s) => s,
    }
}

/// What is shown of a line that is inspected and cannot be followed.
pub fn describe_line(line: &GemTextLine) -> (r: String)
    ensures
        r@ == described(line@),
{
    match line {
        GemTextLine::Text(s) => String::from_str("Text: ").concat(s.as_str()),
        GemTextLine::Link(Scheme::Unresolved(raw), _) => String::from_str(
            "Unresolved link: ",
        ).concat(raw.as_str()),
        GemTextLine::Link(_, label) => String::from_str("Link: ").concat(label.as_str()),
        GemTextLine::Heading(Heading::One(s)) => String::from_str("Heading 1: ").concat(s.as_str()),
        GemTextLine::Heading(Heading::Two(s)) => String::from_str("Heading 2: ").concat(s.as_str()),
        GemTextLine::Heading(Heading::Three(s)) => String::from_str("Heading 3: ").concat(
            s.as_str(),
        ),
        GemTextLine::ListItem(s) => String::from_str("List item: ").concat(s.as_str()),
        GemTextLine::Quote(s) => String::from_str("Quote: ").concat(s.as_str()),
        GemTextLine::PreFormat(s) => String::from_str("Preformatted: ").concat(s.as_str()),
    }
}

/// What a status is, in words, and its text.
pub fn describe_status(status: &Status) -> (r: String)
    ensures
        r@ == class_label(status.class()) + status.meta(),
{
    let label = match status {
        Status::InputExpected(_, _) => "Input expected: ",
        Status::Success(_, _) => "Success: ",
        Status::Redirect(_, _) => "Redirect: ",
        Status::TemporaryFailure(_, _) => "Temporary failure: ",
        Status::PermanentFailure(_, _) => "Permanent failure: ",
        Status::ClientCertificateRequired(_, _) => "Certificate required: ",
        Status::Unknown(_, _) => "Unknown status: ",
        Status::Malformed(_) => "Malformed response: ",
    };
    String::from_str(label).concat(status.get_meta().as_str())
}

/// The lines of a document as they are shown: the text of each with the
/// colour of its kind, preformatted lines not wrapped.
pub fn display_lines(colors: &ColorParams, doc: &Vec<GemTextLine>) -> (r: Vec<DisplayText>)
    ensures
        r.len() == doc.len(),
        forall|i: int|
            0 <= i < r.len() ==> (#[trigger] r[i]).text@ == shown_text(doc[i]@) && r[i].color
                == style_of(*colors, doc[i]@).0 && r[i].wrap == style_of(*colors, doc[i]@).1,
{
    let mut out: Vec<DisplayText> = Vec::new();
    let mut i: usize = 0;
    while i < doc.len()
        invariant
            i <= doc.len(),
            out.len() == i,
            forall|k: int|
                0 <= k < i ==> (#[trigger] out[k]).text@ == shown_text(doc[k]@) && out[k].color
                    == style_of(*colors, doc[k]@).0 && out[k].wrap == style_of(*colors, doc[k]@).1,
        decreases doc.len() - i,
    {
        let (color, wrap) = colors.from_gem_type(&doc[i]);
        out.push(DisplayText::new(line_text(&doc[i]).as_str(), color, wrap));
        i += 1;
    }
    out
}

/// Whether a text begins with `text/`.
pub open spec fn is_text_type(meta: Seq<char>) -> bool {
    meta.len() >= 5 && meta[0] == 't' && meta[1] == 'e' && meta[2] == 'x' && meta[3] == 't'
        && meta[4] == '/'
}

/// Whether a media type is one of text.
pub fn text_type(meta: &str) -> (r: bool)
    ensures
        r == is_text_type(meta@),
{
    let chars = crate::text::chars_of(meta);
    chars.len() >= 5 && chars[0] == 't' && chars[1] == 'e' && chars[2] == 'x' && chars[3] == 't'
        && chars[4] == '/'
}

/// What a tab is doing.
pub enum Mode {
    /// No dialog.
    Browsing,
    /// A dialog that is acknowledged, with its message.
    Acknowledge(Seq<char>),
    /// A dialog that is answered with yes or no, with its message.
    Confirm(Seq<char>),
    /// A dialog that asks for a text, with its prompt.
    TextInput(Seq<char>),
}

/// What a tab becomes on a response.
pub enum Outcome {
    /// A new document replaces the old one.
    Show(Seq<Line>),
    /// A dialog opens over the old document.
    Prompt(Mode, ActionView),
}

/// The address that a redirect leads to: its target resolved against the
/// address that was asked for, or the target as it stands where that gives
/// no address.
pub open spec fn redirect_target(url: Seq<char>, meta: Seq<char>) -> Seq<char> {
    match resolve(url, meta) {
        Ok(t) => t,
        Err(_) => meta,
    }
}

/// What a tab becomes when the document at `url` was asked for and a
/// response with the given status and body came back.
pub open spec fn outcome_of(url: Seq<char>, class: Class, meta: Seq<char>, body: Seq<char>) -> Outcome {
    match class {
        Class::InputExpected(_) => Outcome::Prompt(Mode::TextInput(meta), ActionView::Reply(url)),
        Class::Success(_) => if is_text_type(meta) {
            Outcome::Show(doc_of(body, url))
        } else {
            Outcome::Prompt(
                Mode::Confirm("download nontext type: "@ + meta + "?"@),
                ActionView::Nothing,
            )
        },
        Class::Redirect(_) => Outcome::Prompt(
            Mode::Confirm("go to "@ + meta + "?"@),
            ActionView::Go(redirect_target(url, meta)),
        ),
        Class::ClientCertificateRequired(_) => Outcome::Prompt(
            Mode::Acknowledge(meta),
            ActionView::Nothing,
        ),
        _ => Outcome::Show(seq![Line::Text(class_label(class) + meta)]),
    }
}

/// What a tab asks for when its dialog was closed with yes.
pub open spec fn yes_msg(action: ActionView) -> ViewMsgView {
    match action {
        ActionView::Go(a) => ViewMsgView::Go(a),
        ActionView::DeleteMe => ViewMsgView::DeleteMe,
        _ => ViewMsgView::Default,
    }
}

/// The address that a reply goes to: the address that asked, with the text
/// as its query.
pub open spec fn reply_target(base: Seq<char>, text: Seq<char>) -> Result<
    Seq<char>,
    (bool, Seq<char>),
> {
    match url_parse(base) {
        Ok(b) => if byte_len(b) <= MAX_PART && byte_len(text) <= MAX_PART {
            url_with_query(b, text)
        } else {
            Err((false, "address too long"@))
        },
        Err(e) => Err(e),
    }
}

/// What a tab asks for when a text was entered into its dialog: the text
/// as the address of a new tab, or the address that asked with the text as
/// its query; where that gives no address, the error is the message.
pub open spec fn text_msg(action: ActionView, text: Seq<char>) -> ViewMsgView {
    match action {
        ActionView::GoTo => ViewMsgView::Open(text),
        ActionView::Reply(base) => match reply_target(base, text) {
            Ok(a) => ViewMsgView::Go(a),
            Err(e) => ViewMsgView::Msg(e.1),
        },
        _ => ViewMsgView::Default,
    }
}

/// What a tab asks for after its dialog answered, and whether the dialog
/// closes.
pub open spec fn dialog_msg(action: ActionView, m: Option<InputMsgView>) -> (
    Option<ViewMsgView>,
    bool,
) {
    match m {
        None => (None, false),
        Some(InputMsgView::Default) => (Some(ViewMsgView::Default), false),
        Some(InputMsgView::Cancel) => (Some(ViewMsgView::Default), true),
        Some(InputMsgView::No) => (Some(ViewMsgView::Default), true),
        Some(InputMsgView::Ack) => (Some(ViewMsgView::Default), true),
        Some(InputMsgView::Yes) => (Some(yes_msg(action)), true),
        Some(InputMsgView::Text(t)) => (Some(text_msg(action, t)), true),
    }
}

/// A message as plain values.
pub open spec fn view_msg(r: Option<ViewMsg>) -> Option<ViewMsgView> {
    match r {
        Some(m) => Some(m@),
        None => None,
    }
}

/// What a dialog was closed with yes asks for.
pub fn on_yes(action: &Action) -> (r: ViewMsg)
    ensures
        r@ == yes_msg(action@),
{
    match action {
        Action::Go(a) => ViewMsg::Go(a.clone()),
        Action::DeleteMe => ViewMsg::DeleteMe,
        _ => ViewMsg::Default,
    }
}

/// What a reply asks for, given what parsing the address that asked gave.
pub fn on_reply(parsed: Result<Url, crate::address::UrlError>, text: &str) -> (r: ViewMsg)
    ensures
        r@ == (match (match plain_url(parsed) {
            Ok(b) => if byte_len(b) <= MAX_PART && byte_len(text@) <= MAX_PART {
                url_with_query(b, text@)
            } else {
                Err((false, "address too long"@))
            },
            Err(e) => Err(e),
        }) {
            Ok(a) => ViewMsgView::Go(a),
            Err(e) => ViewMsgView::Msg(e.1),
        }),
{
    match parsed {
        Ok(base) => match base.with_query(text) {
            Ok(u) => ViewMsg::Go(String::from_str(u.as_str())),
            Err(e) => ViewMsg::Msg(e.message),
        },
        Err(e) => ViewMsg::Msg(e.message),
    }
}

/// What a text entered into a dialog asks for.
pub fn on_text(action: &Action, text: String) -> (r: ViewMsg)
    ensures
        r@ == text_msg(action@, text@),
{
    match action {
        Action::GoTo => ViewMsg::Open(text),
        Action::Reply(base) => on_reply(Url::parse(base.as_str()), text.as_str()),
        _ => ViewMsg::Default,
    }
}

/// One tab.
#[derive(Debug)]
pub struct Tab {
    /// The address of the document.
    pub url: Url,
    /// The lines of the document.
    pub doc: Vec<GemTextLine>,
    /// The document as it is shown, and the cursor on it.
    pub reader: Reader,
    /// The dialog, if the tab is prompting.
    pub dialog: Option<Dialog>,
    /// What the dialog is about.
    pub action: Action,
    pub scr: DataScreen,
}

impl Tab {
    /// What the tab is doing.
    pub open spec fn mode(&self) -> Mode {
        match self.dialog {
            None => Mode::Browsing,
            Some(d) => match d.input_type {
                InputType::Ack(_) => Mode::Acknowledge(d.prompt@),
                InputType::Ask(_, _) => Mode::Confirm(d.prompt@),
                InputType::Text(_) => Mode::TextInput(d.prompt@),
            },
        }
    }

    /// The document as plain values.
    pub open spec fn lines(&self) -> Seq<Line> {
        self.doc.deep_view()
    }

    /// The view shows the document: line for line its texts, wrapped to the
    /// screen.
    pub open spec fn shows_doc(&self) -> bool {
        &&& self.reader.doc.wf()
        &&& self.reader.doc.scr == self.scr
        &&& self.reader.doc.src.len() == self.doc.len()
        &&& forall|i: int|
            0 <= i < self.doc.len() ==> (#[trigger] self.reader.doc.src[i]).text@ == shown_text(
                self.doc[i]@,
            )
    }

    /// The view shows the document in the given colours: every line in the
    /// colour of its kind, wrapped where lines of its kind are.
    pub open spec fn shows(&self, colors: ColorParams) -> bool {
        &&& self.shows_doc()
        &&& forall|i: int|
            0 <= i < self.doc.len() ==> (#[trigger] self.reader.doc.src[i]).color == style_of(
                colors,
                self.doc[i]@,
            ).0 && self.reader.doc.src[i].wrap == style_of(colors, self.doc[i]@).1
    }

    /// The dialog, if there is one, is as it was opened: on the screen of
    /// the tab, with the keys and the colour that are configured, and
    /// without text where it asks for one.
    pub open spec fn opened(&self, cfg: Config) -> bool {
        self.dialog is Some ==> {
            let d = self.dialog->0;
            &&& d.scr == self.scr
            &&& match d.input_type {
                InputType::Ack(a) => a == cfg.keys.dialog.ack,
                InputType::Ask(y, n) => y == cfg.keys.dialog.yes && n == cfg.keys.dialog.no,
                InputType::Text(e) => e.txt@.len() == 0 && e.scr == self.scr && e.wf()
                    && e.pcol.at_start(self.scr.outer.spec_x_rng()) && e.color == cfg.colors.dialog,
            }
        }
    }

    /// The line under the cursor, if the cursor is on a row of the
    /// document.
    pub open spec fn selected(&self) -> Option<Line> {
        match self.reader.doc.spec_select(self.reader.pos) {
            Some(i) => if i < self.doc.len() {
                Some(self.doc[i as int]@)
            } else {
                None
            },
            None => None,
        }
    }

    /// A tab on an empty document at `url`, browsing.
    pub fn new(scr: &DataScreen, url: Url) -> (r: Self)
        ensures
            r.url == url,
            r.scr == *scr,
            r.lines() == Seq::<Line>::empty(),
            r.mode() is Browsing,
            r.action@ is Nothing,
            r.shows_doc(),
    {
        let r = Tab {
            url,
            doc: Vec::new(),
            reader: Reader::new(scr, Vec::new()),
            dialog: None,
            action: Action::Nothing,
            scr: *scr,
        };
        assert(r.doc.deep_view() =~= Seq::<Line>::empty());
        r
    }

    /// Replaces the document: the tab shows the given lines as the document
    /// at `url`, the cursor at its top left, and is browsing.
    pub fn show(&mut self, url: Url, lines: Vec<GemTextLine>, cfg: &Config)
        ensures
            final(self).url == url,
            final(self).doc == lines,
            final(self).scr == old(self).scr,
            final(self).mode() is Browsing,
            final(self).action@ is Nothing,
            final(self).shows(cfg.colors),
            final(self).reader.pos.x.at_start(old(self).scr.outer.spec_x_rng()),
            final(self).reader.pos.y.at_start(old(self).scr.outer.spec_y_rng()),
    {
        let texts = display_lines(&cfg.colors, &lines);
        self.reader = Reader::new(&self.scr, texts);
        self.url = url;
        self.doc = lines;
        self.dialog = None;
        self.action = Action::Nothing;
    }

    /// Opens a dialog over the document.
    pub fn prompt(&mut self, dialog: Dialog, action: Action)
        ensures
            final(self).dialog == Some(dialog),
            final(self).action == action,
            final(self).url == old(self).url,
            final(self).doc == old(self).doc,
            final(self).reader == old(self).reader,
            final(self).scr == old(self).scr,
    {
        self.dialog = Some(dialog);
        self.action = action;
    }

    /// Takes the response to a request for the document at `url`: a
    /// document is shown in place of the old one, or a dialog opens over the
    /// old one.
    pub fn receive(&mut self, url: Url, status: Status, body: &str, cfg: &Config)
        ensures
            final(self).scr == old(self).scr,
            match outcome_of(url@, status.class(), status.meta(), body@) {
                Outcome::Show(lines) => {
                    &&& final(self).lines() == lines
                    &&& final(self).url == url
                    &&& final(self).mode() is Browsing
                    &&& final(self).action@ is Nothing
                    &&& final(self).shows(cfg.colors)
                    &&& final(self).reader.pos.x.at_start(old(self).scr.outer.spec_x_rng())
                    &&& final(self).reader.pos.y.at_start(old(self).scr.outer.spec_y_rng())
                },
                Outcome::Prompt(mode, action) => {
                    &&& final(self).mode() == mode
                    &&& final(self).action@ == action
                    &&& final(self).opened(*cfg)
                    &&& final(self).url == old(self).url
                    &&& final(self).doc == old(self).doc
                    &&& final(self).reader == old(self).reader
                },
            },
    {
        match &status {
            Status::InputExpected(_, meta) => {
                let dialog = Dialog::text(&self.scr, cfg, meta.as_str());
                self.prompt(dialog, Action::Reply(String::from_str(url.as_str())));
            },
            Status::Success(_, meta) => {
                if text_type(meta.as_str()) {
                    let lines = parse_doc(body, &url);
                    self.show(url, lines, cfg);
                } else {
                    let text = String::from_str("download nontext type: ").concat(
                        meta.as_str(),
                    ).concat("?");
                    let dialog = Dialog::ask(&self.scr, cfg, text.as_str());
                    self.prompt(dialog, Action::Nothing);
                }
            },
            Status::Redirect(_, meta) => {
                let text = String::from_str("go to ").concat(meta.as_str()).concat("?");
                let target = match join_if_relative(&url, meta.as_str()) {
                    Ok(u) => String::from_str(u.as_str()),
                    Err(_) => meta.clone(),
                };
                let dialog = Dialog::ask(&self.scr, cfg, text.as_str());
                self.prompt(dialog, Action::Go(target));
            },
            Status::ClientCertificateRequired(_, meta) => {
                let dialog = Dialog::ack(&self.scr, cfg, meta.as_str());
                self.prompt(dialog, Action::Nothing);
            },
            _ => {
                let mut lines: Vec<GemTextLine> = Vec::new();
                let line = GemTextLine::Text(describe_status(&status));
                lines.push(line);
                assert(lines.deep_view() =~= seq![line@]);
                self.show(url, lines, cfg);
            },
        }
    }

    /// Takes the failure of a request for the document at `url`: the tab
    /// shows one line of text that says what went wrong, and is browsing.
    pub fn fail(&mut self, url: Url, message: &str, cfg: &Config)
        ensures
            final(self).lines() == seq![Line::Text(message@)],
            final(self).url == url,
            final(self).scr == old(self).scr,
            final(self).mode() is Browsing,
            final(self).action@ is Nothing,
            final(self).shows(cfg.colors),
            final(self).reader.pos.x.at_start(old(self).scr.outer.spec_x_rng()),
            final(self).reader.pos.y.at_start(old(self).scr.outer.spec_y_rng()),
    {
        let mut lines: Vec<GemTextLine> = Vec::new();
        let line = GemTextLine::Text(String::from_str(message));
        lines.push(line);
        assert(lines.deep_view() =~= seq![line@]);
        self.show(url, lines, cfg);
    }

    /// Takes what a fetch of the document at `url` gave, response or error.
    pub fn load(&mut self, url: Url, fetched: Result<(Status, String), NetworkError>, cfg: &Config)
        ensures
            final(self).scr == old(self).scr,
            match fetched {
                Ok((status, body)) => match outcome_of(url@, status.class(), status.meta(), body@) {
                    Outcome::Show(lines) => {
                        &&& final(self).lines() == lines
                        &&& final(self).url == url
                        &&& final(self).mode() is Browsing
                        &&& final(self).action@ is Nothing
                        &&& final(self).shows(cfg.colors)
                    },
                    Outcome::Prompt(mode, action) => {
                        &&& final(self).mode() == mode
                        &&& final(self).action@ == action
                        &&& final(self).opened(*cfg)
                        &&& final(self).url == old(self).url
                        &&& final(self).doc == old(self).doc
                        &&& final(self).reader == old(self).reader
                    },
                },
                Err(e) => {
                    &&& final(self).lines() == seq![Line::Text(error_text(e))]
                    &&& final(self).url == url
                    &&& final(self).mode() is Browsing
                    &&& final(self).action@ is Nothing
                    &&& final(self).shows(cfg.colors)
                },
            },
    {
        match fetched {
            Ok((status, body)) => self.receive(url, status, body.as_str(), cfg),
            Err(e) => {
                let message = describe_error(&e);
                self.fail(url, message.as_str(), cfg);
            },
        }
    }

    /// Takes a new configuration: the lines are shown in its colours, the
    /// cursor stays where it is.
    pub fn update_cfg(&mut self, cfg: &Config)
        ensures
            final(self).url == old(self).url,
            final(self).doc == old(self).doc,
            final(self).scr == old(self).scr,
            final(self).dialog == old(self).dialog,
            final(self).action == old(self).action,
            final(self).reader.pos == old(self).reader.pos,
            final(self).shows(cfg.colors),
    {
        let texts = display_lines(&cfg.colors, &self.doc);
        self.reader.doc = crate::reader::DisplayDoc::new(texts, &self.scr);
    }

    /// Takes a new screen.
    pub fn resize(&mut self, scr: &DataScreen)
        ensures
            final(self).scr == *scr,
            final(self).url == old(self).url,
            final(self).doc == old(self).doc,
            final(self).action == old(self).action,
            final(self).reader.doc.src == old(self).reader.doc.src,
            final(self).reader.wf(),
            final(self).reader.doc.scr == *scr,
            final(self).reader.pos == old(self).reader.pos.resized(
                *scr,
                final(self).reader.doc.row_lens(),
            ),
            old(self).dialog is None <==> final(self).dialog is None,
            old(self).dialog is Some ==> final(self).dialog->0.scr == *scr && final(
                self
            ).dialog->0.prompt == old(self).dialog->0.prompt && (old(self).dialog->0.input_type is Text
                <==> final(self).dialog->0.input_type is Text) && (!(old(
                self
            ).dialog->0.input_type is Text) ==> final(self).dialog->0.input_type == old(
                self
            ).dialog->0.input_type),
            old(self).shows_doc() ==> final(self).shows_doc(),
            forall|c: ColorParams| old(self).shows(c) ==> #[trigger] final(self).shows(c),
    {
        self.scr = *scr;
        self.reader.resize(scr);
        match &mut self.dialog {
            Some(d) => {
                d.resize(scr);
            },
            None => {},
        }
    }

    /// Closes the dialog.
    pub fn close(&mut self)
        ensures
            final(self).dialog is None,
            final(self).action@ is Nothing,
            final(self).url == old(self).url,
            final(self).doc == old(self).doc,
            final(self).reader == old(self).reader,
            final(self).scr == old(self).scr,
    {
        self.dialog = None;
        self.action = Action::Nothing;
    }

    /// What a key press does to a tab that is prompting: the dialog takes
    /// the key, and closes where it answers with more than that it goes on.
    pub open spec fn prompting_step(
        old_tab: Tab,
        new_tab: Tab,
        r: Option<ViewMsg>,
        key: Key,
    ) -> bool {
        let d = old_tab.dialog->0;
        let (msg, closes) = dialog_msg(old_tab.action@, answer(d.input_type@, key));
        &&& view_msg(r) == msg
        &&& new_tab.reader == old_tab.reader
        &&& if closes {
            new_tab.dialog is None && new_tab.action@ is Nothing
        } else {
            &&& new_tab.dialog is Some
            &&& new_tab.dialog->0.input_type@ == after(d.input_type@, key)
            &&& new_tab.dialog->0.prompt == d.prompt
            &&& new_tab.dialog->0.scr == d.scr
            &&& new_tab.action == old_tab.action
        }
    }

    /// What a key press does to a tab that is browsing. A move goes to the
    /// view; cycling and the global key are handed on; deleting the tab and
    /// opening a new one ask first; inspecting asks whether to follow the
    /// link under the cursor, or shows what else is there.
    pub open spec fn browsing_step(
        old_tab: Tab,
        new_tab: Tab,
        r: Option<ViewMsg>,
        key: Key,
        cfg: Config,
    ) -> bool {
        let scr = old_tab.reader.doc.scr;
        let rows = old_tab.reader.doc.row_lens();
        let moved = new_tab.reader.doc == old_tab.reader.doc && new_tab.dialog is None
            && new_tab.action == old_tab.action && view_msg(r) == Some(ViewMsgView::Default);
        let same = new_tab.reader == old_tab.reader && new_tab.dialog is None && new_tab.action
            == old_tab.action;
        let asked = new_tab.reader == old_tab.reader && view_msg(r) == Some(ViewMsgView::Default)
            && new_tab.opened(cfg);
        match command_of(key, cfg.keys) {
            Command::MoveDown => moved && new_tab.reader.pos == old_tab.reader.pos.down(scr, rows, 1),
            Command::MoveUp => moved && new_tab.reader.pos == old_tab.reader.pos.up(scr, rows, 1),
            Command::MoveLeft => moved && new_tab.reader.pos == old_tab.reader.pos.left(scr, 1),
            Command::MoveRight => moved && new_tab.reader.pos == old_tab.reader.pos.right(
                scr,
                rows,
                1,
            ),
            Command::CycleLeft => same && view_msg(r) == Some(ViewMsgView::CycleLeft),
            Command::CycleRight => same && view_msg(r) == Some(ViewMsgView::CycleRight),
            Command::Global => same && view_msg(r) == Some(ViewMsgView::Global),
            Command::DeleteTab => asked && new_tab.mode() == Mode::Confirm("Delete current tab?"@)
                && new_tab.action@ is DeleteMe,
            Command::NewTab => asked && new_tab.mode() == Mode::TextInput("enter path: "@)
                && new_tab.action@ is GoTo,
            Command::Inspect => match old_tab.selected() {
                None => same && r is None,
                Some(line) => asked && match link_address(line) {
                    Some(a) => new_tab.mode() == Mode::Confirm("go to "@ + a + "?"@)
                        && new_tab.action@ == ActionView::Go(a),
                    None => new_tab.mode() == Mode::Acknowledge(described(line))
                        && new_tab.action@ is Nothing,
                },
            },
            Command::Ignore => same && r is None,
        }
    }

    /// Takes a key press; says what the tab asks for, if the key meant
    /// anything to it.
    pub fn update(&mut self, key: &Key, cfg: &Config) -> (r: Option<ViewMsg>)
        ensures
            final(self).url == old(self).url,
            final(self).doc == old(self).doc,
            final(self).scr == old(self).scr,
            old(self).dialog is Some ==> Self::prompting_step(*old(self), *final(self), r, *key),
            old(self).dialog is None ==> Self::browsing_step(
                *old(self),
                *final(self),
                r,
                *key,
                *cfg,
            ),
    {
        if self.dialog.is_some() {
            self.update_dialog(key)
        } else {
            self.update_page(key, cfg)
        }
    }

    /// Takes a key press while prompting.
    pub fn update_dialog(&mut self, key: &Key) -> (r: Option<ViewMsg>)
        ensures
            final(self).url == old(self).url,
            final(self).doc == old(self).doc,
            final(self).scr == old(self).scr,
            old(self).dialog is Some ==> Self::prompting_step(*old(self), *final(self), r, *key),
            old(self).dialog is None ==> r is None && *final(self) == *old(self),
    {
        let m = match &mut self.dialog {
            Some(d) => d.update(key),
            None => {
                return None;
            },
        };
        match m {
            None => None,
            Some(InputMsg::Default) => Some(ViewMsg::Default),
            Some(InputMsg::Cancel) => {
                self.close();
                Some(ViewMsg::Default)
            },
            Some(InputMsg::No) => {
                self.close();
                Some(ViewMsg::Default)
            },
            Some(InputMsg::Ack) => {
                self.close();
                Some(ViewMsg::Default)
            },
            Some(InputMsg::Yes) => {
                let msg = on_yes(&self.action);
                self.close();
                Some(msg)
            },
            Some(InputMsg::Text(t)) => {
                let msg = on_text(&self.action, t);
                self.close();
                Some(msg)
            },
        }
    }

    /// Takes a key press while browsing.
    pub fn update_page(&mut self, key: &Key, cfg: &Config) -> (r: Option<ViewMsg>)
        ensures
            final(self).url == old(self).url,
            final(self).doc == old(self).doc,
            final(self).scr == old(self).scr,
            old(self).dialog is None ==> Self::browsing_step(
                *old(self),
                *final(self),
                r,
                *key,
                *cfg,
            ),
            old(self).dialog is Some ==> r is None && *final(self) == *old(self),
    {
        if self.dialog.is_some() {
            return None;
        }
        match command(key, &cfg.keys) {
            Command::MoveDown => {
                self.reader.move_down(1);
                Some(ViewMsg::Default)
            },
            Command::MoveUp => {
                self.reader.move_up(1);
                Some(ViewMsg::Default)
            },
            Command::MoveLeft => {
                self.reader.move_left(1);
                Some(ViewMsg::Default)
            },
            Command::MoveRight => {
                self.reader.move_right(1);
                Some(ViewMsg::Default)
            },
            Command::CycleLeft => Some(ViewMsg::CycleLeft),
            Command::CycleRight => Some(ViewMsg::CycleRight),
            Command::Global => Some(ViewMsg::Global),
            Command::DeleteTab => {
                let dialog = Dialog::ask(&self.scr, cfg, "Delete current tab?");
                self.prompt(dialog, Action::DeleteMe);
                Some(ViewMsg::Default)
            },
            Command::NewTab => {
                let dialog = Dialog::text(&self.scr, cfg, "enter path: ");
                self.prompt(dialog, Action::GoTo);
                Some(ViewMsg::Default)
            },
            Command::Inspect => self.inspect(cfg),
            Command::Ignore => None,
        }
    }

    /// Opens the dialog on the line under the cursor: whether to follow it
    /// where it is a link with an address, else what it is. Without a line
    /// under the cursor nothing happens.
    pub fn inspect(&mut self, cfg: &Config) -> (r: Option<ViewMsg>)
        ensures
            final(self).url == old(self).url,
            final(self).doc == old(self).doc,
            final(self).scr == old(self).scr,
            final(self).reader == old(self).reader,
            match old(self).selected() {
                None => r is None && *final(self) == *old(self),
                Some(line) => view_msg(r) == Some(ViewMsgView::Default) && final(self).opened(*cfg)
                    && match link_address(line) {
                    Some(a) => final(self).mode() == Mode::Confirm("go to "@ + a + "?"@) && final(
                        self
                    ).action@ == ActionView::Go(a),
                    None => final(self).mode() == Mode::Acknowledge(described(line)) && final(
                        self
                    ).action@ is Nothing,
                },
            },
    {
        let idx = match self.reader.select() {
            Some(i) => i,
            None => {
                return None;
            },
        };
        if idx >= self.doc.len() {
            return None;
        }
        let (dialog, action) = match address_of(&self.doc[idx]) {
            Some(url) => {
                let text = String::from_str("go to ").concat(url.as_str()).concat("?");
                (
                    Dialog::ask(&self.scr, cfg, text.as_str()),
                    Action::Go(String::from_str(url.as_str())),
                )
            },
            None => {
                let text = describe_line(&self.doc[idx]);
                (Dialog::ack(&self.scr, cfg, text.as_str()), Action::Nothing)
            },
        };
        self.prompt(dialog, action);
        Some(ViewMsg::Default)
    }
}

/// A redirect opens a question, and the key for yes answers it with the
/// request to fetch where the redirect leads; the dialog closes.
pub proof fn redirect_confirmed_is_fetched(
    url: Seq<char>,
    kind: crate::status::Redirect,
    meta: Seq<char>,
    body: Seq<char>,
    yes: char,
    no: char,
)
    ensures
        outcome_of(url, Class::Redirect(kind), meta, body) == Outcome::Prompt(
            Mode::Confirm("go to "@ + meta + "?"@),
            ActionView::Go(redirect_target(url, meta)),
        ),
        dialog_msg(
            ActionView::Go(redirect_target(url, meta)),
            answer(InputView::Ask(yes, no), Key::Char(yes)),
        ) == (Some(ViewMsgView::Go(redirect_target(url, meta))), true),
{
}

/// A question that is answered with no, or that is cancelled, closes and
/// asks for nothing but to be drawn again, whatever it was about.
pub proof fn refusal_asks_for_nothing(action: ActionView, yes: char, no: char)
    requires
        yes != no,
    ensures
        dialog_msg(action, answer(InputView::Ask(yes, no), Key::Char(no))) == (
            Some(ViewMsgView::Default),
            true,
        ),
        dialog_msg(action, answer(InputView::Ask(yes, no), Key::Esc)) == (
            Some(ViewMsgView::Default),
            true,
        ),
{
}

/// The address that a line leads to, if it is a link with an address.
pub fn address_of(line: &GemTextLine) -> (r: Option<&Url>)
    ensures
        r is Some <==> link_address(line@) is Some,
        r is Some ==> r->0@ == link_address(line@)->0,
{
    match line {
        GemTextLine::Link(Scheme::Gemini(u), _) => Some(u),
        GemTextLine::Link(Scheme::Gopher(u), _) => Some(u),
        GemTextLine::Link(Scheme::Http(u), _) => Some(u),
        GemTextLine::Link(Scheme::Unknown(u), _) => Some(u),
        _ => None,
    }
}

} // verus!
