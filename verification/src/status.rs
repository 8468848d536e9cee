//! The status line of a Gemini response: a code of one to three digits, white
//! space, and a text whose meaning depends on the code. A line that does not
//! read as that still gives a status, never an error.

use vstd::prelude::*;
use vstd::string::StrSliceExecFns;
use crate::text::{chars_of, find_ws, find_whitespace, trim, trim_bounds};

verus! {

/// Codes 10 to 19: the server asks for input.
#[derive(Clone, Copy, Debug, PartialEq, Eq)]
pub enum Input {
    /// 10, and 12 to 19
    Input,
    /// 11: input that should not be shown
    Sensitive,
}

/// Codes 20 to 29.
#[derive(Clone, Copy, Debug, PartialEq, Eq)]
pub enum Success {
    Success,
}

/// Codes 30 to 39.
#[derive(Clone, Copy, Debug, PartialEq, Eq)]
pub enum Redirect {
    /// 30, and 32 to 39
    Temporary,
    /// 31
    Permanent,
}

/// Codes 40 to 49.
#[derive(Clone, Copy, Debug, PartialEq, Eq)]
pub enum TemporaryFailure {
    /// 40, and 45 to 49
    TemporaryFailure,
    /// 41
    ServerUnavailable,
    /// 42
    CGIError,
    /// 43
    ProxyError,
    /// 44
    SlowDown,
}

/// Codes 50 to 59.
#[derive(Clone, Copy, Debug, PartialEq, Eq)]
pub enum PermanentFailure {
    /// 50, and 54 to 58
    PermanentFailure,
    /// 51
    NotFound,
    /// 52
    Gone,
    /// 53
    ProxyRequestRefused,
    /// 59
    BadRequest,
}

/// Codes 60 to 69.
#[derive(Clone, Copy, Debug, PartialEq, Eq)]
pub enum ClientCertificateRequired {
    /// 60, and 66 to 69
    ClientCertificateRequired,
    /// 61
    TransientCertificateRequired,
    /// 62
    AuthorizedCertificateRequired,
    /// 63
    CertificateNotAccepted,
    /// 64
    FutureCertificateRejected,
    /// 65
    ExpiredCertificateRejected,
}

/// What a code stands for.
#[derive(Clone, Copy, Debug, PartialEq, Eq)]
pub enum Class {
    InputExpected(Input),
    Success(Success),
    Redirect(Redirect),
    TemporaryFailure(TemporaryFailure),
    PermanentFailure(PermanentFailure),
    ClientCertificateRequired(ClientCertificateRequired),
    /// A code outside 10 to 69.
    Unknown(i16),
    /// No code at all.
    Malformed,
}

/// A status: what its code stands for, and the text that came with it.
#[derive(Clone, Debug, PartialEq, Eq)]
pub enum Status {
    InputExpected(Input, String),
    Success(Success, String),
    Redirect(Redirect, String),
    TemporaryFailure(TemporaryFailure, String),
    PermanentFailure(PermanentFailure, String),
    ClientCertificateRequired(ClientCertificateRequired, String),
    /// A code that stands for nothing, with the text.
    Unknown(i16, String),
    /// A line without a code, with its text.
    Malformed(String),
}

/// The table of codes.
pub open spec fn class_of(code: i16) -> Class {
    if code == 11 {
        Class::InputExpected(Input::Sensitive)
    } else if 10 <= code <= 19 {
        Class::InputExpected(Input::Input)
    } else if 20 <= code <= 29 {
        Class::Success(Success::Success)
    } else if code == 31 {
        Class::Redirect(Redirect::Permanent)
    } else if 30 <= code <= 39 {
        Class::Redirect(Redirect::Temporary)
    } else if code == 41 {
        Class::TemporaryFailure(TemporaryFailure::ServerUnavailable)
    } else if code == 42 {
        Class::TemporaryFailure(TemporaryFailure::CGIError)
    } else if code == 43 {
        Class::TemporaryFailure(TemporaryFailure::ProxyError)
    } else if code == 44 {
        Class::TemporaryFailure(TemporaryFailure::SlowDown)
    } else if 40 <= code <= 49 {
        Class::TemporaryFailure(TemporaryFailure::TemporaryFailure)
    } else if code == 51 {
        Class::PermanentFailure(PermanentFailure::NotFound)
    } else if code == 52 {
        Class::PermanentFailure(PermanentFailure::Gone)
    } else if code == 53 {
        Class::PermanentFailure(PermanentFailure::ProxyRequestRefused)
    } else if code == 59 {
        Class::PermanentFailure(PermanentFailure::BadRequest)
    } else if 50 <= code <= 59 {
        Class::PermanentFailure(PermanentFailure::PermanentFailure)
    } else if code == 61 {
        Class::ClientCertificateRequired(ClientCertificateRequired::TransientCertificateRequired)
    } else if code == 62 {
        Class::ClientCertificateRequired(ClientCertificateRequired::AuthorizedCertificateRequired)
    } else if code == 63 {
        Class::ClientCertificateRequired(ClientCertificateRequired::CertificateNotAccepted)
    } else if code == 64 {
        Class::ClientCertificateRequired(ClientCertificateRequired::FutureCertificateRejected)
    } else if code == 65 {
        Class::ClientCertificateRequired(ClientCertificateRequired::ExpiredCertificateRejected)
    } else if 60 <= code <= 69 {
        Class::ClientCertificateRequired(ClientCertificateRequired::ClientCertificateRequired)
    } else {
        Class::Unknown(code)
    }
}

pub open spec fn is_digit(c: char) -> bool {
    '0' <= c <= '9'
}

/// The number that a text of digits spells.
pub open spec fn digits_value(s: Seq<char>) -> int
    decreases s.len(),
{
    if s.len() == 0 {
        0
    } else {
        digits_value(s.drop_last()) * 10 + (s.last() as u32 - '0' as u32)
    }
}

/// The code that a text spells: one to three digits, nothing else.
pub open spec fn code_of(s: Seq<char>) -> Option<i16> {
    if 1 <= s.len() <= 3 && (forall|i: int| 0 <= i < s.len() ==> is_digit(s[i])) {
        Some(digits_value(s) as i16)
    } else {
        None
    }
}

/// The two parts of a status line. The line is trimmed and split at its
/// first white space: what comes before is the code, what comes after,
/// trimmed, is the text. A line without white space is all code and has no
/// text.
pub open spec fn status_parts(line: Seq<char>) -> (Seq<char>, Seq<char>) {
    let t = trim(line);
    let at = find_ws(t, 0);
    if at >= 0 {
        (t.subrange(0, at), trim(t.subrange(at, t.len() as int)))
    } else {
        (t, Seq::empty())
    }
}

/// What a status line stands for.
pub open spec fn status_class(line: Seq<char>) -> Class {
    match code_of(status_parts(line).0) {
        Some(code) => class_of(code),
        None => Class::Malformed,
    }
}

/// The text of a status line.
pub open spec fn status_meta(line: Seq<char>) -> Seq<char> {
    status_parts(line).1
}

impl Status {
    /// What the code of the status stands for.
    pub open spec fn class(&self) -> Class {
        match self {
            Status::InputExpected(k, _) => Class::InputExpected(*k),
            Status::Success(k, _) => Class::Success(*k),
            Status::Redirect(k, _) => Class::Redirect(*k),
            Status::TemporaryFailure(k, _) => Class::TemporaryFailure(*k),
            Status::PermanentFailure(k, _) => Class::PermanentFailure(*k),
            Status::ClientCertificateRequired(k, _) => Class::ClientCertificateRequired(*k),
            Status::Unknown(c, _) => Class::Unknown(*c),
            Status::Malformed(_) => Class::Malformed,
        }
    }

    /// The text of the status.
    pub open spec fn meta(&self) -> Seq<char> {
        match self {
            Status::InputExpected(_, m) => m@,
            Status::Success(_, m) => m@,
            Status::Redirect(_, m) => m@,
            Status::TemporaryFailure(_, m) => m@,
            Status::PermanentFailure(_, m) => m@,
            Status::ClientCertificateRequired(_, m) => m@,
            Status::Unknown(_, m) => m@,
            Status::Malformed(m) => m@,
        }
    }

    /// The status of a code with its text.
    pub fn new(code: i16, meta: String) -> (r: Self)
        ensures
            r.class() == class_of(code),
            r.meta() == meta@,
    {
        match code {
            11 => Status::InputExpected(Input::Sensitive, meta),
            10..=19 => Status::InputExpected(Input::Input, meta),
            20..=29 => Status::Success(Success::Success, meta),
            31 => Status::Redirect(Redirect::Permanent, meta),
            30..=39 => Status::Redirect(Redirect::Temporary, meta),
            41 => Status::TemporaryFailure(TemporaryFailure::ServerUnavailable, meta),
            42 => Status::TemporaryFailure(TemporaryFailure::CGIError, meta),
            43 => Status::TemporaryFailure(TemporaryFailure::ProxyError, meta),
            44 => Status::TemporaryFailure(TemporaryFailure::SlowDown, meta),
            40..=49 => Status::TemporaryFailure(TemporaryFailure::TemporaryFailure, meta),
            51 => Status::PermanentFailure(PermanentFailure::NotFound, meta),
            52 => Status::PermanentFailure(PermanentFailure::Gone, meta),
            53 => Status::PermanentFailure(PermanentFailure::ProxyRequestRefused, meta),
            59 => Status::PermanentFailure(PermanentFailure::BadRequest, meta),
            50..=59 => Status::PermanentFailure(PermanentFailure::PermanentFailure, meta),
            61 => Status::ClientCertificateRequired(
                ClientCertificateRequired::TransientCertificateRequired,
                meta,
            ),
            62 => Status::ClientCertificateRequired(
                ClientCertificateRequired::AuthorizedCertificateRequired,
                meta,
            ),
            63 => Status::ClientCertificateRequired(
                ClientCertificateRequired::CertificateNotAccepted,
                meta,
            ),
            64 => Status::ClientCertificateRequired(
                ClientCertificateRequired::FutureCertificateRejected,
                meta,
            ),
            65 => Status::ClientCertificateRequired(
                ClientCertificateRequired::ExpiredCertificateRejected,
                meta,
            ),
            60..=69 => Status::ClientCertificateRequired(
                ClientCertificateRequired::ClientCertificateRequired,
                meta,
            ),
            _ => Status::Unknown(code, meta),
        }
    }

    /// The text of the status.
    pub fn get_meta(&self) -> (r: &String)
        ensures
            r@ == self.meta(),
    {
        match self {
            Status::InputExpected(_, m) => m,
            Status::Success(_, m) => m,
            Status::Redirect(_, m) => m,
            Status::TemporaryFailure(_, m) => m,
            Status::PermanentFailure(_, m) => m,
            Status::ClientCertificateRequired(_, m) => m,
            Status::Unknown(_, m) => m,
            Status::Malformed(m) => m,
        }
    }
}

/// Reads a code: one to three digits.
pub fn get_status(code_str: &str) -> (r: Option<i16>)
    ensures
        r == code_of(code_str@),
{
    let chars = chars_of(code_str);
    if chars.len() < 1 || chars.len() > 3 {
        return None;
    }
    let mut value: i16 = 0;
    let mut i: usize = 0;
    while i < chars.len()
        invariant
            i <= chars.len() <= 3,
            chars@ == code_str@,
            forall|k: int| 0 <= k < i ==> is_digit(chars@[k]),
            value == digits_value(chars@.take(i as int)),
            0 <= value,
            i == 0 ==> value == 0,
            i == 1 ==> value <= 9,
            i == 2 ==> value <= 99,
            i == 3 ==> value <= 999,
        decreases chars.len() - i,
    {
        let c = chars[i];
        if !('0' <= c && c <= '9') {
            assert(!is_digit(chars@[i as int]));
            return None;
        }
        let d: u32 = c as u32 - '0' as u32;
        assert(chars@.take(i + 1).drop_last() =~= chars@.take(i as int));
        value = value * 10 + d as i16;
        i += 1;
    }
    assert(chars@.take(chars.len() as int) =~= chars@);
    Some(value)
}

/// Takes a status line apart into code and text.
pub fn split_status<'a>(line: &'a str) -> (r: (&'a str, &'a str))
    ensures
        (r.0@, r.1@) == status_parts(line@),
{
    let chars = chars_of(line);
    let (a, b) = trim_bounds(&chars, 0, chars.len());
    assert(chars@.subrange(0, chars.len() as int) == chars@);
    let trimmed = line.substring_char(a, b);
    let t = chars_of(trimmed);
    match find_whitespace(&t) {
        Some(at) => {
            let (a2, b2) = trim_bounds(&t, at, t.len());
            (trimmed.substring_char(0, at), trimmed.substring_char(a2, b2))
        },
        None => {
            let none = trimmed.substring_char(0, 0);
            assert(none@ =~= Seq::<char>::empty());
            (trimmed, none)
        },
    }
}

/// Reads a status line. Any line gives a status: one without a code gives
/// `Malformed`, a code that stands for nothing gives `Unknown`.
pub fn parse_status(line: &str) -> (r: Status)
    ensures
        r.class() == status_class(line@),
        r.meta() == status_meta(line@),
{
    let (code_str, msg) = split_status(line);
    let meta = msg.to_owned();
    match get_status(code_str) {
        Some(code) => Status::new(code, meta),
        None => Status::Malformed(meta),
    }
}

} // verus!
