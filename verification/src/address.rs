//! Addresses of documents. An address is held as the text that the `url`
//! crate gives a parsed URL; parsing, joining and setting a query are done by
//! that crate, and what they return is known here by name only.

use vstd::prelude::*;
use crate::text::{chars_of, string_of, find_char, find_from};

verus! {

/// What `url::Url::parse` makes of a text: the text of the URL, or, where
/// it fails, whether it failed for want of a base and the words of the
/// error.
pub uninterp spec fn url_parse(input: Seq<char>) -> Result<Seq<char>, (bool, Seq<char>)>;

/// What `url::Url::join` makes of a text when called on the URL that `base`
/// parses to: the text of the joined URL, or, where parsing `base` or
/// joining fails, the error as for `url_parse`.
pub uninterp spec fn url_join(base: Seq<char>, input: Seq<char>) -> Result<
    Seq<char>,
    (bool, Seq<char>),
>;

/// The text of the URL that `base` parses to after `url::Url::set_query`
/// has given it `query` as its query, or, where parsing `base` fails, the
/// error as for `url_parse`.
pub uninterp spec fn url_with_query(base: Seq<char>, query: Seq<char>) -> Result<
    Seq<char>,
    (bool, Seq<char>),
>;

/// Why a text gave no address.
#[derive(Clone, Debug, PartialEq, Eq)]
pub struct UrlError {
    /// The text is a relative address and there was no base to join it to.
    pub relative: bool,
    /// The error in words.
    pub message: String,
}

/// The address of a document.
#[derive(Clone, Debug, PartialEq, Eq)]
pub struct Url {
    text: String,
}

impl View for Url {
    type V = Seq<char>;

    closed spec fn view(&self) -> Seq<char> {
        self.text@
    }
}

impl View for UrlError {
    type V = (bool, Seq<char>);

    open spec fn view(&self) -> (bool, Seq<char>) {
        (self.relative, self.message@)
    }
}

/// A result as plain values.
pub open spec fn plain(r: Result<String, UrlError>) -> Result<Seq<char>, (bool, Seq<char>)> {
    match r {
        Ok(t) => Ok(t@),
        Err(e) => Err(e@),
    }
}

/// A result as plain values.
pub open spec fn plain_url(r: Result<Url, UrlError>) -> Result<Seq<char>, (bool, Seq<char>)> {
    match r {
        Ok(u) => Ok(u@),
        Err(e) => Err(e@),
    }
}

/// The longest text, in bytes, that is handed on to have a query set.
pub const MAX_PART: usize = 0x0fff_ffff;

/// The length of a text in bytes, as `str::len` gives it.
pub open spec fn byte_len(s: Seq<char>) -> usize {
    vstd::utf8::encode_utf8(s).len() as usize
}

/// `url::Url::parse`: the result is the one named `url_parse`. Of a URL the
/// text is kept, of an error whether it is `RelativeUrlWithoutBase` and its
/// words.
#[verifier::external_body]
fn parse_text(input: &str) -> (r: Result<String, UrlError>)
    ensures
        plain(r) == url_parse(input@),
{
    match url::Url::parse(input) {
        Ok(u) => Ok(String::from(u)),
        Err(e) => Err(
            UrlError {
                relative: e == url::ParseError::RelativeUrlWithoutBase,
                message: e.to_string(),
            },
        ),
    }
}

/// `url::Url::join`, called on the URL that `base` parses to: the result is
/// the one named `url_join`.
#[verifier::external_body]
fn join_text(base: &str, input: &str) -> (r: Result<String, UrlError>)
    ensures
        plain(r) == url_join(base@, input@),
{
    match url::Url::parse(base).and_then(|b| b.join(input)) {
        Ok(u) => Ok(String::from(u)),
        Err(e) => Err(
            UrlError {
                relative: e == url::ParseError::RelativeUrlWithoutBase,
                message: e.to_string(),
            },
        ),
    }
}

/// `url::Url::set_query`, called on the URL that `base` parses to: the
/// result is the one named `url_with_query`. The two texts are kept short
/// enough for the URL to stay within the length that the crate can hold.
#[verifier::external_body]
fn query_text(base: &str, query: &str) -> (r: Result<String, UrlError>)
    requires
        byte_len(base@) <= MAX_PART,
        byte_len(query@) <= MAX_PART,
    ensures
        plain(r) == url_with_query(base@, query@),
{
    match url::Url::parse(base) {
        Ok(mut u) => {
            u.set_query(Some(query));
            Ok(String::from(u))
        },
        Err(e) => Err(
            UrlError {
                relative: e == url::ParseError::RelativeUrlWithoutBase,
                message: e.to_string(),
            },
        ),
    }
}

/// The scheme of an address: what comes before its first colon.
pub open spec fn scheme_of(text: Seq<char>) -> Seq<char> {
    let at = find_from(text, ':', 0);
    if at >= 0 {
        text.subrange(0, at)
    } else {
        Seq::empty()
    }
}

/// What resolving a link against a base gives once the link has been parsed
/// on its own: the address it parsed to; where it failed for want of a
/// base, what joining it to the base gives; else the error.
pub open spec fn resolved(
    parsed: Result<Seq<char>, (bool, Seq<char>)>,
    base: Seq<char>,
    input: Seq<char>,
) -> Result<Seq<char>, (bool, Seq<char>)> {
    match parsed {
        Ok(t) => Ok(t),
        Err(e) => if e.0 {
            url_join(base, input)
        } else {
            Err(e)
        },
    }
}

/// What resolving a link against a base gives.
pub open spec fn resolve(base: Seq<char>, input: Seq<char>) -> Result<
    Seq<char>,
    (bool, Seq<char>),
> {
    resolved(url_parse(input), base, input)
}

fn wrap_url(r: Result<String, UrlError>) -> (u: Result<Url, UrlError>)
    ensures
        plain_url(u) == plain(r),
{
    match r {
        Ok(text) => Ok(Url { text }),
        Err(e) => Err(e),
    }
}

impl Url {
    /// Parses an absolute address.
    pub fn parse(input: &str) -> (r: Result<Url, UrlError>)
        ensures
            plain_url(r) == url_parse(input@),
    {
        wrap_url(parse_text(input))
    }

    /// Parses an address that may be relative to this one.
    pub fn join(&self, input: &str) -> (r: Result<Url, UrlError>)
        ensures
            plain_url(r) == url_join(self@, input@),
    {
        wrap_url(join_text(self.text.as_str(), input))
    }

    /// This address with `query` as its query. Texts longer than `MAX_PART`
    /// bytes are refused.
    pub fn with_query(&self, query: &str) -> (r: Result<Url, UrlError>)
        ensures
            byte_len(self@) <= MAX_PART && byte_len(query@) <= MAX_PART ==> plain_url(r)
                == url_with_query(self@, query@),
            byte_len(self@) > MAX_PART || byte_len(query@) > MAX_PART ==> r is Err && r->Err_0@ == (
                false,
                "address too long"@,
            ),
    {
        if self.text.as_str().len() <= MAX_PART && query.len() <= MAX_PART {
            wrap_url(query_text(self.text.as_str(), query))
        } else {
            Err(UrlError { relative: false, message: "address too long".to_owned() })
        }
    }

    /// The address as text.
    pub fn as_str(&self) -> (r: &str)
        ensures
            r@ == self@,
    {
        self.text.as_str()
    }

    /// The scheme of the address.
    pub fn scheme(&self) -> (r: String)
        ensures
            r@ == scheme_of(self@),
    {
        let chars = chars_of(self.text.as_str());
        match find_char(&chars, ':') {
            Some(at) => string_of(&chars, 0, at),
            None => String::new(),
        }
    }
}

/// What resolving a link gives once the link has been parsed on its own.
pub fn resolve_parsed(parsed: Result<Url, UrlError>, base: &Url, input: &str) -> (r: Result<
    Url,
    UrlError,
>)
    ensures
        plain_url(r) == resolved(plain_url(parsed), base@, input@),
{
    match parsed {
        Ok(u) => Ok(u),
        Err(e) => if e.relative {
            base.join(input)
        } else {
            Err(e)
        },
    }
}

/// Resolves a link against a base: the link as an absolute address, or
/// joined to the base where it is a relative one.
pub fn join_if_relative(base: &Url, input: &str) -> (r: Result<Url, UrlError>)
    ensures
        plain_url(r) == resolve(base@, input@),
{
    resolve_parsed(Url::parse(input), base, input)
}

} // verus!
