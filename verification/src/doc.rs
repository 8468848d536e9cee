//! A document as it came from a server: where it was asked for, the status
//! that came back, and its lines. A response that is no success gives a
//! document of one line that says what came back instead.

use vstd::prelude::*;
use crate::address::Url;
use crate::cfg::{ColorParams, style_of};
use crate::gemtext::{GemTextLine, Line, parse_doc, doc_of};
use crate::reader::DisplayText;
use crate::status::{Status, Class};
use crate::tab::{class_label, describe_status, display_lines, shown_text};

verus! {

/// A document.
#[derive(Debug)]
pub struct GemDoc {
    pub url: Url,
    pub status: Status,
    pub doc: Vec<GemTextLine>,
}

/// The lines of the document that a response gives: the lines of the body
/// on success, else one line of text with the status in words.
pub open spec fn response_lines(url: Seq<char>, class: Class, meta: Seq<char>, body: Seq<char>) -> Seq<
    Line,
> {
    if class is Success {
        doc_of(body, url)
    } else {
        seq![Line::Text(class_label(class) + meta)]
    }
}

impl GemDoc {
    /// The document that a response to a request for `url` gives.
    pub fn new(url: Url, status: Status, content: &str) -> (r: Self)
        ensures
            r.url == url,
            r.status == status,
            r.doc.deep_view() == response_lines(url@, status.class(), status.meta(), content@),
    {
        let doc = match &status {
            Status::Success(_, _) => parse_doc(content, &url),
            _ => {
                let mut lines: Vec<GemTextLine> = Vec::new();
                let line = GemTextLine::Text(describe_status(&status));
                lines.push(line);
                assert(lines.deep_view() =~= seq![line@]);
                lines
            },
        };
        GemDoc { url, status, doc }
    }
}

impl ColorParams {
    /// The lines of a document as they are shown.
    pub fn from_gem_doc(&self, doc: &GemDoc) -> (r: Vec<DisplayText>)
        ensures
            r.len() == doc.doc.len(),
            forall|i: int|
                0 <= i < r.len() ==> (#[trigger] r[i]).text@ == shown_text(doc.doc[i]@) && r[i].color
                    == style_of(*self, doc.doc[i]@).0 && r[i].wrap == style_of(
                    *self,
                    doc.doc[i]@,
                ).1,
    {
        display_lines(self, &doc.doc)
    }
}

} // verus!
