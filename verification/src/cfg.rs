//! What can be configured, and the values it has when nothing is.

use vstd::prelude::*;
use crate::gemtext::GemTextLine;

verus! {

/// A colour as red, green and blue.
#[derive(Clone, Copy, Debug, PartialEq, Eq)]
pub struct Rgb(pub u8, pub u8, pub u8);

/// The keys that a dialog listens to.
#[derive(Clone, Copy, Debug, PartialEq, Eq)]
pub struct DialogKeyParams {
    pub ack: char,
    pub yes: char,
    pub no: char,
}

/// The keys that a tab listens to.
#[derive(Clone, Copy, Debug, PartialEq, Eq)]
pub struct TabKeyParams {
    pub move_up: char,
    pub move_down: char,
    pub move_left: char,
    pub move_right: char,
    pub cycle_left: char,
    pub cycle_right: char,
    pub inspect: char,
    pub delete_tab: char,
    pub new_tab: char,
}

/// All the keys.
#[derive(Clone, Copy, Debug, PartialEq, Eq)]
pub struct KeyParams {
    pub global: char,
    pub load_cfg: char,
    pub msg_view: char,
    pub tab_view: char,
    pub dialog: DialogKeyParams,
    pub tab: TabKeyParams,
}

/// How a document is laid out.
#[derive(Debug, PartialEq, Eq)]
pub struct FormatParams {
    pub margin: u16,
    pub list_prefix: String,
    pub heading1: (u8, u8),
    pub heading2: (u8, u8),
    pub heading3: (u8, u8),
}

/// The colour of each kind of text.
#[derive(Clone, Copy, Debug, PartialEq, Eq)]
pub struct ColorParams {
    pub background: Rgb,
    pub banner: Rgb,
    pub dialog: Rgb,
    pub text: Rgb,
    pub heading1: Rgb,
    pub heading2: Rgb,
    pub heading3: Rgb,
    pub link: Rgb,
    pub badlink: Rgb,
    pub quote: Rgb,
    pub list: Rgb,
    pub preformat: Rgb,
}

/// The configuration.
#[derive(Debug, PartialEq, Eq)]
pub struct Config {
    /// The address of the first document.
    pub init_url: String,
    /// How many cells before the edge of a view scrolling begins.
    pub scroll_at: u16,
    pub colors: ColorParams,
    pub keys: KeyParams,
    pub format: FormatParams,
}

/// The keys of a dialog when none are configured.
pub open spec fn default_dialog_keys() -> DialogKeyParams {
    DialogKeyParams { ack: 'y', yes: 'y', no: 'n' }
}

/// The keys of a tab when none are configured.
pub open spec fn default_tab_keys() -> TabKeyParams {
    TabKeyParams {
        move_up: 'o',
        move_down: 'i',
        move_left: 'e',
        move_right: 'n',
        cycle_left: 'E',
        cycle_right: 'N',
        inspect: 'w',
        delete_tab: 'v',
        new_tab: 'p',
    }
}

/// The keys when none are configured.
pub open spec fn default_keys() -> KeyParams {
    KeyParams {
        global: 'g',
        load_cfg: 'c',
        msg_view: 'm',
        tab_view: 't',
        dialog: default_dialog_keys(),
        tab: default_tab_keys(),
    }
}

/// The colours when none are configured: black on light grey.
pub open spec fn default_colors() -> ColorParams {
    ColorParams {
        background: Rgb(205, 205, 205),
        banner: Rgb(0, 0, 0),
        dialog: Rgb(0, 0, 0),
        text: Rgb(0, 0, 0),
        heading1: Rgb(0, 0, 0),
        heading2: Rgb(0, 0, 0),
        heading3: Rgb(0, 0, 0),
        link: Rgb(0, 0, 0),
        badlink: Rgb(0, 0, 0),
        quote: Rgb(0, 0, 0),
        list: Rgb(0, 0, 0),
        preformat: Rgb(0, 0, 0),
    }
}

impl DialogKeyParams {
    pub fn default() -> (r: Self)
        ensures
            r == default_dialog_keys(),
    {
        DialogKeyParams { ack: 'y', yes: 'y', no: 'n' }
    }
}

impl TabKeyParams {
    pub fn default() -> (r: Self)
        ensures
            r == default_tab_keys(),
    {
        TabKeyParams {
            move_up: 'o',
            move_down: 'i',
            move_left: 'e',
            move_right: 'n',
            cycle_left: 'E',
            cycle_right: 'N',
            inspect: 'w',
            delete_tab: 'v',
            new_tab: 'p',
        }
    }
}

impl KeyParams {
    pub fn default() -> (r: Self)
        ensures
            r == default_keys(),
    {
        KeyParams {
            global: 'g',
            load_cfg: 'c',
            msg_view: 'm',
            tab_view: 't',
            dialog: DialogKeyParams::default(),
            tab: TabKeyParams::default(),
        }
    }
}

impl FormatParams {
    pub fn default() -> (r: Self)
        ensures
            r.margin == 2,
            r.list_prefix@ == "- "@,
            r.heading1 == (3u8, 2u8),
            r.heading2 == (2u8, 1u8),
            r.heading3 == (1u8, 0u8),
    {
        FormatParams {
            margin: 2,
            list_prefix: "- ".to_owned(),
            heading1: (3, 2),
            heading2: (2, 1),
            heading3: (1, 0),
        }
    }
}

/// The colour of a kind of line, and whether lines of that kind are
/// wrapped: all but preformatted ones are.
pub open spec fn style_of(colors: ColorParams, line: crate::gemtext::Line) -> (Rgb, bool) {
    match line {
        crate::gemtext::Line::HeadingOne(_) => (colors.heading1, true),
        crate::gemtext::Line::HeadingTwo(_) => (colors.heading2, true),
        crate::gemtext::Line::HeadingThree(_) => (colors.heading3, true),
        crate::gemtext::Line::Text(_) => (colors.text, true),
        crate::gemtext::Line::Quote(_) => (colors.quote, true),
        crate::gemtext::Line::ListItem(_) => (colors.list, true),
        crate::gemtext::Line::PreFormat(_) => (colors.preformat, false),
        crate::gemtext::Line::Link(crate::gemtext::Target::Unresolved(_), _) => (
            colors.badlink,
            true,
        ),
        crate::gemtext::Line::Link(_, _) => (colors.link, true),
    }
}

impl ColorParams {
    pub fn default() -> (r: Self)
        ensures
            r == default_colors(),
    {
        ColorParams {
            background: Rgb(205, 205, 205),
            dialog: Rgb(0, 0, 0),
            banner: Rgb(0, 0, 0),
            text: Rgb(0, 0, 0),
            heading1: Rgb(0, 0, 0),
            heading2: Rgb(0, 0, 0),
            heading3: Rgb(0, 0, 0),
            link: Rgb(0, 0, 0),
            badlink: Rgb(0, 0, 0),
            quote: Rgb(0, 0, 0),
            list: Rgb(0, 0, 0),
            preformat: Rgb(0, 0, 0),
        }
    }

    pub fn get_banner(&self) -> (r: Rgb)
        ensures
            r == self.banner,
    {
        self.banner
    }

    pub fn get_dialog(&self) -> (r: Rgb)
        ensures
            r == self.dialog,
    {
        self.dialog
    }

    pub fn get_background(&self) -> (r: Rgb)
        ensures
            r == self.background,
    {
        self.background
    }

    /// The colour of a line, and whether it is wrapped.
    pub fn from_gem_type(&self, gem: &GemTextLine) -> (r: (Rgb, bool))
        ensures
            r == style_of(*self, gem@),
    {
        match gem {
            GemTextLine::Heading(crate::gemtext::Heading::One(_)) => (self.heading1, true),
            GemTextLine::Heading(crate::gemtext::Heading::Two(_)) => (self.heading2, true),
            GemTextLine::Heading(crate::gemtext::Heading::Three(_)) => (self.heading3, true),
            GemTextLine::Text(_) => (self.text, true),
            GemTextLine::Quote(_) => (self.quote, true),
            GemTextLine::ListItem(_) => (self.list, true),
            GemTextLine::PreFormat(_) => (self.preformat, false),
            GemTextLine::Link(crate::gemtext::Scheme::Unresolved(_), _) => (self.badlink, true),
            GemTextLine::Link(_, _) => (self.link, true),
        }
    }
}

impl Config {
    pub fn default() -> (r: Self)
        ensures
            r.init_url@ == "gemini://datapulp.smol.pub/"@,
            r.scroll_at == 3,
            r.colors == default_colors(),
            r.keys == default_keys(),
            r.format.margin == 2,
            r.format.list_prefix@ == "- "@,
            r.format.heading1 == (3u8, 2u8),
            r.format.heading2 == (2u8, 1u8),
            r.format.heading3 == (1u8, 0u8),
    {
        Config {
            init_url: "gemini://datapulp.smol.pub/".to_owned(),
            scroll_at: 3,
            colors: ColorParams::default(),
            keys: KeyParams::default(),
            format: FormatParams::default(),
        }
    }
}

} // verus!
