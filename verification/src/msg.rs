//! What the parts of the client say to each other: keys that come in, what a
//! dialog answers, and what a view asks of whoever runs it.

use vstd::prelude::*;

verus! {

/// A key press.
#[derive(Clone, Copy, Debug, PartialEq, Eq)]
pub enum Key {
    Char(char),
    Enter,
    Esc,
    Left,
    Right,
    Up,
    Down,
    Delete,
    Backspace,
    /// Any other key.
    Other,
}

/// What a view asks for after a key press.
#[derive(Clone, Debug, PartialEq, Eq)]
pub enum ViewMsg {
    /// Nothing but to be drawn again.
    Default,
    /// Keys go to the application until it hands them back.
    Global,
    ReloadConfig,
    /// A message to show.
    Msg(String),
    /// The configuration is to be read from the given path.
    NewConfig(String),
    CycleLeft,
    CycleRight,
    DeleteMe,
    NewTab,
    Reply,
    /// The document at the given address is to be fetched for the tab that
    /// asks.
    Go(String),
    /// A new tab is to be opened on the given address.
    Open(String),
}

/// What a dialog answers to a key press.
#[derive(Clone, Debug, PartialEq, Eq)]
pub enum InputMsg {
    /// The dialog took the key and goes on.
    Default,
    Cancel,
    Ack,
    Yes,
    No,
    /// The text that was entered.
    Text(String),
}

/// Where key presses go.
#[derive(Clone, Copy, Debug, PartialEq, Eq)]
pub enum Focus {
    Tab,
    Global,
}

/// What a dialog is about: what is done when it is answered.
#[derive(Clone, Debug, PartialEq, Eq)]
pub enum Action {
    /// Nothing.
    Nothing,
    /// The text that is entered is an address to go to.
    GoTo,
    /// The tab is deleted on yes.
    DeleteMe,
    /// The given address is fetched on yes.
    Go(String),
    /// The text that is entered goes to the given address as its query.
    Reply(String),
}

/// `Action` as plain values.
pub enum ActionView {
    Nothing,
    GoTo,
    DeleteMe,
    Go(Seq<char>),
    Reply(Seq<char>),
}

/// `ViewMsg` as plain values.
pub enum ViewMsgView {
    Default,
    Global,
    ReloadConfig,
    Msg(Seq<char>),
    NewConfig(Seq<char>),
    CycleLeft,
    CycleRight,
    DeleteMe,
    NewTab,
    Reply,
    Go(Seq<char>),
    Open(Seq<char>),
}

/// `InputMsg` as plain values.
pub enum InputMsgView {
    Default,
    Cancel,
    Ack,
    Yes,
    No,
    Text(Seq<char>),
}

impl View for Action {
    type V = ActionView;

    open spec fn view(&self) -> ActionView {
        match self {
            Action::Nothing => ActionView::Nothing,
            Action::GoTo => ActionView::GoTo,
            Action::DeleteMe => ActionView::DeleteMe,
            Action::Go(s) => ActionView::Go(s@),
            Action::Reply(s) => ActionView::Reply(s@),
        }
    }
}

impl View for ViewMsg {
    type V = ViewMsgView;

    open spec fn view(&self) -> ViewMsgView {
        match self {
            ViewMsg::Default => ViewMsgView::Default,
            ViewMsg::Global => ViewMsgView::Global,
            ViewMsg::ReloadConfig => ViewMsgView::ReloadConfig,
            ViewMsg::Msg(s) => ViewMsgView::Msg(s@),
            ViewMsg::NewConfig(s) => ViewMsgView::NewConfig(s@),
            ViewMsg::CycleLeft => ViewMsgView::CycleLeft,
            ViewMsg::CycleRight => ViewMsgView::CycleRight,
            ViewMsg::DeleteMe => ViewMsgView::DeleteMe,
            ViewMsg::NewTab => ViewMsgView::NewTab,
            ViewMsg::Reply => ViewMsgView::Reply,
            ViewMsg::Go(s) => ViewMsgView::Go(s@),
            ViewMsg::Open(s) => ViewMsgView::Open(s@),
        }
    }
}

impl View for InputMsg {
    type V = InputMsgView;

    open spec fn view(&self) -> InputMsgView {
        match self {
            InputMsg::Default => InputMsgView::Default,
            InputMsg::Cancel => InputMsgView::Cancel,
            InputMsg::Ack => InputMsgView::Ack,
            InputMsg::Yes => InputMsgView::Yes,
            InputMsg::No => InputMsgView::No,
            InputMsg::Text(s) => InputMsgView::Text(s@),
        }
    }
}

} // verus!
