//! The Gemini exchange as far as it is computed: the request line that goes
//! out, and the response that comes back taken apart into status and body.
//! A response is the status line, a carriage return and a line feed, and
//! then the body up to the end of the stream.

use vstd::prelude::*;
use vstd::string::StringExecFns;
use crate::address::Url;
use crate::status::{Status, parse_status, status_class, status_meta};

verus! {

/// The port that Gemini servers listen on.
pub const GEMINI_PORT: u16 = 1965;

/// Seconds to wait for a connection.
pub const CONNECT_TIMEOUT_SECS: u64 = 10;

/// Why a fetch gave no response. Every variant but the last carries the
/// cause in words.
#[derive(Clone, Debug, PartialEq, Eq)]
pub enum NetworkError {
    /// The host could not be resolved.
    Resolve(String),
    /// No connection was made.
    Connect(String),
    /// The TLS handshake failed.
    Tls(String),
    /// The request could not be written.
    Write(String),
    /// The response could not be read.
    Read(String),
    /// The response has no line end after its status line.
    Malformed,
}

/// What `String::from_utf8_lossy` makes of bytes.
pub uninterp spec fn utf8_lossy(bytes: Seq<u8>) -> Seq<char>;

/// `String::from_utf8_lossy`: the result is the one named `utf8_lossy`;
/// bytes that are valid UTF-8 give the text that they encode.
#[verifier::external_body]
fn decode_lossy(bytes: &Vec<u8>) -> (r: String)
    ensures
        r@ == utf8_lossy(bytes@),
        vstd::utf8::valid_utf8(bytes@) ==> r@ == vstd::utf8::decode_utf8(bytes@),
{
    String::from_utf8_lossy(bytes).into_owned()
}

/// There is a carriage return and a line feed at `i`.
pub open spec fn crlf_at(data: Seq<u8>, i: int) -> bool {
    0 <= i && i + 1 < data.len() && data[i] == 13 && data[i + 1] == 10
}

/// `i` is where the first carriage return and line feed stand.
pub open spec fn first_crlf(data: Seq<u8>, i: int) -> bool {
    crlf_at(data, i) && forall|k: int| 0 <= k < i ==> !crlf_at(data, k)
}

/// There is no carriage return and line feed.
pub open spec fn no_crlf(data: Seq<u8>) -> bool {
    forall|k: int| !crlf_at(data, k)
}

/// The line that asks for the document at `url`.
pub fn request_line(url: &Url) -> (r: String)
    ensures
        r@ == url@ + "\r\n"@,
{
    let mut r = String::from_str(url.as_str());
    r.append("\r\n");
    r
}

/// Where the first carriage return and line feed stand.
pub fn find_clrf(data: &Vec<u8>) -> (r: Option<usize>)
    ensures
        r is Some ==> first_crlf(data@, r->0 as int),
        r is None ==> no_crlf(data@),
{
    let mut i: usize = 0;
    while i < data.len() && i + 1 < data.len()
        invariant
            forall|k: int| 0 <= k < i ==> !crlf_at(data@, k),
        decreases data.len() - i,
    {
        if data[i] == 13 && data[i + 1] == 10 {
            return Some(i);
        }
        i += 1;
    }
    None
}

/// The bytes from `from` to just before `to`.
fn slice_of(data: &Vec<u8>, from: usize, to: usize) -> (r: Vec<u8>)
    requires
        from <= to <= data.len(),
    ensures
        r@ == data@.subrange(from as int, to as int),
{
    let mut r: Vec<u8> = Vec::new();
    let mut i: usize = from;
    while i < to
        invariant
            from <= i <= to <= data.len(),
            r@ == data@.subrange(from as int, i as int),
        decreases to - i,
    {
        r.push(data[i]);
        i += 1;
        assert(data@.subrange(from as int, i as int) == data@.subrange(from as int, i as int - 1).push(
            data@[i as int - 1],
        ));
    }
    r
}

/// Takes a response apart at its first carriage return and line feed: the
/// status line before them, the body after them. A response without them is
/// malformed.
pub fn split_response(response: &Vec<u8>) -> (r: Result<(Vec<u8>, Vec<u8>), NetworkError>)
    ensures
        r is Err <==> no_crlf(response@),
        r is Err ==> r->Err_0 == NetworkError::Malformed,
        r is Ok ==> exists|i: int|
            first_crlf(response@, i) && r->Ok_0.0@ == response@.subrange(0, i) && r->Ok_0.1@
                == response@.subrange(i + 2, response.len() as int),
{
    match find_clrf(response) {
        Some(i) => {
            assert(crlf_at(response@, i as int));
            assert(i + 2 <= response.len());
            Ok((slice_of(response, 0, i), slice_of(response, i + 2, response.len())))
        },
        None => Err(NetworkError::Malformed),
    }
}

/// Reads a status line and a body that have been taken apart: the status
/// that the line stands for, and the body as text.
pub fn read_parts(header: &Vec<u8>, body: &Vec<u8>) -> (r: (Status, String))
    ensures
        r.0.class() == status_class(utf8_lossy(header@)),
        r.0.meta() == status_meta(utf8_lossy(header@)),
        r.1@ == utf8_lossy(body@),
{
    let line = decode_lossy(header);
    (parse_status(line.as_str()), decode_lossy(body))
}

/// Reads a response: its status and its body, or that it is malformed.
pub fn read_response(response: &Vec<u8>) -> (r: Result<(Status, String), NetworkError>)
    ensures
        r is Err <==> no_crlf(response@),
        r is Err ==> r->Err_0 == NetworkError::Malformed,
        r is Ok ==> exists|i: int|
            first_crlf(response@, i) && r->Ok_0.0.class() == status_class(
                utf8_lossy(response@.subrange(0, i)),
            ) && r->Ok_0.0.meta() == status_meta(utf8_lossy(response@.subrange(0, i)))
                && r->Ok_0.1@ == utf8_lossy(response@.subrange(i + 2, response.len() as int)),
{
    match split_response(response) {
        Ok((header, body)) => Ok(read_parts(&header, &body)),
        Err(e) => Err(e),
    }
}

/// The error in words.
pub open spec fn error_text(e: NetworkError) -> Seq<char> {
    match e {
        NetworkError::Resolve(m) => "Could not resolve "@ + m@,
        NetworkError::Connect(m) => "Could not connect to "@ + m@,
        NetworkError::Tls(m) => "Could not connect to "@ + m@,
        NetworkError::Write(m) => "Could not write to "@ + m@,
        NetworkError::Read(m) => "Could not read "@ + m@,
        NetworkError::Malformed => "Could not find the clrf"@,
    }
}

/// The error in words.
pub fn describe_error(e: &NetworkError) -> (r: String)
    ensures
        r@ == error_text(*e),
{
    match e {
        NetworkError::Resolve(m) => String::from_str("Could not resolve ").concat(m.as_str()),
        NetworkError::Connect(m) => String::from_str("Could not connect to ").concat(m.as_str()),
        NetworkError::Tls(m) => String::from_str("Could not connect to ").concat(m.as_str()),
        NetworkError::Write(m) => String::from_str("Could not write to ").concat(m.as_str()),
        NetworkError::Read(m) => String::from_str("Could not read ").concat(m.as_str()),
        NetworkError::Malformed => String::from_str("Could not find the clrf"),
    }
}

} // verus!
