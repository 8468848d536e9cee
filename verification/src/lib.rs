//! The core of a terminal client for the Gemini protocol: text wrapping,
//! cursor and scroll arithmetic, the Gemtext document model, the status line,
//! and the navigation rules that tie them together.

pub mod screen;
pub mod pos;
pub mod view;
pub mod geometry;
pub mod text;
pub mod status;
pub mod address;
pub mod gemtext;
pub mod msg;
pub mod cfg;
pub mod editor;
pub mod reader;
pub mod dialog;
pub mod client;
pub mod tab;
pub mod tabs;
pub mod doc;
pub mod textview;
