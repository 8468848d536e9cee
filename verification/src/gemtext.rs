//! Gemtext: the lines of a document and what each of them is. A document is
//! read line by line; a line of three backticks turns preformatted text on
//! or off, and outside of it the first characters of a line say what it is.
//! Every text gives a document: a link whose target is no address is kept
//! with the target as it stands.

use vstd::prelude::*;
use crate::address::{Url, UrlError, plain_url, resolve, scheme_of, join_if_relative};
use crate::text::{
    chars_of, string_of, trimmed_string, push_char, find_from, trim, split_once,
    split_whitespace_once,
};

verus! {

/// A heading with its text.
#[derive(Clone, Debug, PartialEq, Eq)]
pub enum Heading {
    One(String),
    Two(String),
    Three(String),
}

/// Where a link leads, told apart by the scheme of its address.
#[derive(Clone, Debug, PartialEq, Eq)]
pub enum Scheme {
    Gemini(Url),
    Gopher(Url),
    /// `http` and `https`.
    Http(Url),
    /// An address of another scheme.
    Unknown(Url),
    /// A target that gave no address, as it stands in the line.
    Unresolved(String),
}

/// One line of a document.
#[derive(Clone, Debug, PartialEq, Eq)]
pub enum GemTextLine {
    Text(String),
    /// A link: where it leads, and its label.
    Link(Scheme, String),
    Heading(Heading),
    ListItem(String),
    Quote(String),
    PreFormat(String),
}

/// Where a link leads, as plain values.
pub enum Target {
    Gemini(Seq<char>),
    Gopher(Seq<char>),
    Http(Seq<char>),
    Unknown(Seq<char>),
    Unresolved(Seq<char>),
}

/// One line of a document, as plain values.
pub enum Line {
    Text(Seq<char>),
    Link(Target, Seq<char>),
    HeadingOne(Seq<char>),
    HeadingTwo(Seq<char>),
    HeadingThree(Seq<char>),
    ListItem(Seq<char>),
    Quote(Seq<char>),
    PreFormat(Seq<char>),
}

impl View for Scheme {
    type V = Target;

    open spec fn view(&self) -> Target {
        match self {
            Scheme::Gemini(u) => Target::Gemini(u@),
            Scheme::Gopher(u) => Target::Gopher(u@),
            Scheme::Http(u) => Target::Http(u@),
            Scheme::Unknown(u) => Target::Unknown(u@),
            Scheme::Unresolved(s) => Target::Unresolved(s@),
        }
    }
}

impl View for GemTextLine {
    type V = Line;

    open spec fn view(&self) -> Line {
        match self {
            GemTextLine::Text(s) => Line::Text(s@),
            GemTextLine::Link(t, l) => Line::Link(t@, l@),
            GemTextLine::Heading(Heading::One(s)) => Line::HeadingOne(s@),
            GemTextLine::Heading(Heading::Two(s)) => Line::HeadingTwo(s@),
            GemTextLine::Heading(Heading::Three(s)) => Line::HeadingThree(s@),
            GemTextLine::ListItem(s) => Line::ListItem(s@),
            GemTextLine::Quote(s) => Line::Quote(s@),
            GemTextLine::PreFormat(s) => Line::PreFormat(s@),
        }
    }
}

impl DeepView for GemTextLine {
    type V = Line;

    open spec fn deep_view(&self) -> Line {
        self@
    }
}

/// `l` without the carriage return it may end with.
pub open spec fn strip_cr(l: Seq<char>) -> Seq<char> {
    if l.len() > 0 && l.last() == '\r' {
        l.drop_last()
    } else {
        l
    }
}

/// The lines of a text. A line ends with a line feed, before which a
/// carriage return does not count; what follows the last line feed is a
/// line if it is not empty.
pub open spec fn lines(s: Seq<char>) -> Seq<Seq<char>>
    decreases s.len(),
{
    if s.len() == 0 {
        Seq::empty()
    } else {
        let at = find_from(s, '\n', 0);
        if 0 <= at < s.len() {
            seq![strip_cr(s.subrange(0, at))] + lines(s.subrange(at + 1, s.len() as int))
        } else {
            seq![s]
        }
    }
}

/// The line begins with the given characters.
pub open spec fn starts1(l: Seq<char>, c: char) -> bool {
    l.len() >= 1 && l[0] == c
}

pub open spec fn starts2(l: Seq<char>, c0: char, c1: char) -> bool {
    l.len() >= 2 && l[0] == c0 && l[1] == c1
}

pub open spec fn starts3(l: Seq<char>, c: char) -> bool {
    l.len() >= 3 && l[0] == c && l[1] == c && l[2] == c
}

/// The line turns preformatted text on or off.
pub open spec fn is_fence(l: Seq<char>) -> bool {
    starts3(l, '`')
}

/// The scheme is the given word.
pub open spec fn scheme_is(address: Seq<char>, word: Seq<char>) -> bool {
    scheme_of(address) == word
}

/// Where a link with target `raw` leads, given what resolving the target
/// gave.
pub open spec fn target_of(r: Result<Seq<char>, (bool, Seq<char>)>, raw: Seq<char>) -> Target {
    match r {
        Ok(address) => if scheme_is(address, "gemini"@) {
            Target::Gemini(address)
        } else if scheme_is(address, "gopher"@) {
            Target::Gopher(address)
        } else if scheme_is(address, "http"@) || scheme_is(address, "https"@) {
            Target::Http(address)
        } else {
            Target::Unknown(address)
        },
        Err(_) => Target::Unresolved(raw),
    }
}

/// A link line, given what follows its arrow. That is trimmed and split at
/// its first tab or, if it has none, its first space, into target and
/// label; without either the target is the label too.
pub open spec fn link_line(rest: Seq<char>, base: Seq<char>) -> Line {
    let (target, label) = split_once(rest);
    Line::Link(target_of(resolve(base, target), target), label)
}

/// A line outside preformatted text. Longer marks are looked for first.
pub open spec fn formatted(l: Seq<char>, base: Seq<char>) -> Line {
    if starts3(l, '#') {
        Line::HeadingThree(trim(l.skip(3)))
    } else if starts2(l, '=', '>') {
        link_line(l.skip(2), base)
    } else if starts2(l, '#', '#') {
        Line::HeadingTwo(trim(l.skip(2)))
    } else if starts1(l, '>') {
        Line::Quote(trim(l.skip(1)))
    } else if starts1(l, '*') {
        Line::ListItem(seq!['-', ' '] + trim(l.skip(1)))
    } else if starts1(l, '#') {
        Line::HeadingOne(trim(l.skip(1)))
    } else {
        Line::Text(l)
    }
}

/// The lines of a document, `pre` saying whether they begin in
/// preformatted text.
pub open spec fn parse_lines(ls: Seq<Seq<char>>, base: Seq<char>, pre: bool) -> Seq<Line>
    decreases ls.len(),
{
    if ls.len() == 0 {
        Seq::empty()
    } else if is_fence(ls[0]) {
        parse_lines(ls.drop_first(), base, !pre)
    } else if pre {
        seq![Line::PreFormat(ls[0])] + parse_lines(ls.drop_first(), base, pre)
    } else {
        seq![formatted(ls[0], base)] + parse_lines(ls.drop_first(), base, pre)
    }
}

/// The document that a text is, links resolved against `base`.
pub open spec fn doc_of(text: Seq<char>, base: Seq<char>) -> Seq<Line> {
    parse_lines(lines(text), base, false)
}

/// Whether two texts are the same.
pub fn str_eq(a: &str, b: &str) -> (r: bool)
    ensures
        r == (a@ == b@),
{
    let x = chars_of(a);
    let y = chars_of(b);
    if x.len() != y.len() {
        return false;
    }
    let mut i: usize = 0;
    while i < x.len()
        invariant
            i <= x.len() == y.len(),
            x@ == a@,
            y@ == b@,
            forall|k: int| 0 <= k < i ==> x@[k] == y@[k],
        decreases x.len() - i,
    {
        if x[i] != y[i] {
            return false;
        }
        i += 1;
    }
    assert(x@ =~= y@);
    true
}

/// Where a link with target `raw` leads, given what resolving the target
/// gave: by its scheme where it gave an address, else the target as it
/// stands.
pub fn link_target(resolved: Result<Url, UrlError>, raw: &str) -> (r: Scheme)
    ensures
        r@ == target_of(plain_url(resolved), raw@),
{
    match resolved {
        Ok(url) => {
            let scheme = url.scheme();
            if str_eq(scheme.as_str(), "gemini") {
                Scheme::Gemini(url)
            } else if str_eq(scheme.as_str(), "gopher") {
                Scheme::Gopher(url)
            } else if str_eq(scheme.as_str(), "http") || str_eq(scheme.as_str(), "https") {
                Scheme::Http(url)
            } else {
                Scheme::Unknown(url)
            }
        },
        Err(_) => Scheme::Unresolved(raw.to_owned()),
    }
}

/// Reads what follows the arrow of a link line.
pub fn parse_link(rest: &str, source: &Url) -> (r: GemTextLine)
    ensures
        r@ == link_line(rest@, source@),
{
    let (target, label) = split_whitespace_once(rest);
    let scheme = link_target(join_if_relative(source, target), target);
    GemTextLine::Link(scheme, label.to_owned())
}

/// Whether a line turns preformatted text on or off.
pub fn is_toggle(line: &str) -> (r: bool)
    ensures
        r == is_fence(line@),
{
    let chars = chars_of(line);
    chars.len() >= 3 && chars[0] == '`' && chars[1] == '`' && chars[2] == '`'
}

/// Reads a line outside preformatted text.
pub fn parse_formatted(line: &str, source: &Url) -> (r: GemTextLine)
    ensures
        r@ == formatted(line@, source@),
{
    let chars = chars_of(line);
    let n = chars.len();
    let ghost l = chars@;
    if n >= 3 && chars[0] == '#' && chars[1] == '#' && chars[2] == '#' {
        assert(l.skip(3) == l.subrange(3, n as int));
        GemTextLine::Heading(Heading::Three(trimmed_string(&chars, 3, n)))
    } else if n >= 2 && chars[0] == '=' && chars[1] == '>' {
        assert(l.skip(2) == l.subrange(2, n as int));
        let rest = string_of(&chars, 2, n);
        parse_link(rest.as_str(), source)
    } else if n >= 2 && chars[0] == '#' && chars[1] == '#' {
        assert(l.skip(2) == l.subrange(2, n as int));
        GemTextLine::Heading(Heading::Two(trimmed_string(&chars, 2, n)))
    } else if n >= 1 && chars[0] == '>' {
        assert(l.skip(1) == l.subrange(1, n as int));
        GemTextLine::Quote(trimmed_string(&chars, 1, n))
    } else if n >= 1 && chars[0] == '*' {
        assert(l.skip(1) == l.subrange(1, n as int));
        let item = trimmed_string(&chars, 1, n);
        let mut text = String::new();
        push_char(&mut text, '-');
        push_char(&mut text, ' ');
        text.append(item.as_str());
        assert(text@ =~= seq!['-', ' '] + item@);
        GemTextLine::ListItem(text)
    } else if n >= 1 && chars[0] == '#' {
        assert(l.skip(1) == l.subrange(1, n as int));
        GemTextLine::Heading(Heading::One(trimmed_string(&chars, 1, n)))
    } else {
        GemTextLine::Text(line.to_owned())
    }
}

/// The lines of a text.
pub fn split_lines(text: &str) -> (r: Vec<String>)
    ensures
        r.deep_view() == lines(text@),
{
    let chars = chars_of(text);
    let n = chars.len();
    let mut out: Vec<String> = Vec::new();
    let mut pos: usize = 0;
    assert(out.deep_view() =~= Seq::<Seq<char>>::empty());
    assert(chars@.subrange(0, n as int) == chars@);
    while pos < n
        invariant
            n == chars.len(),
            pos <= n,
            chars@ == text@,
            out.deep_view() + lines(chars@.subrange(pos as int, n as int)) == lines(chars@),
        decreases n - pos,
    {
        let ghost rest = chars@.subrange(pos as int, n as int);
        let mut i: usize = pos;
        while i < n && chars[i] != '\n'
            invariant
                pos <= i <= n == chars.len(),
                rest == chars@.subrange(pos as int, n as int),
                find_from(rest, '\n', 0) == find_from(rest, '\n', i - pos),
            decreases n - i,
        {
            assert(rest[i - pos] == chars@[i as int]);
            i += 1;
        }
        let ghost before = out.deep_view();
        if i < n {
            assert(rest[i - pos] == chars@[i as int]);
            assert(find_from(rest, '\n', 0) == i - pos);
            let end = if i > pos && chars[i - 1] == '\r' {
                i - 1
            } else {
                i
            };
            let line = string_of(&chars, pos, end);
            assert(rest.subrange(0, i - pos) =~= chars@.subrange(pos as int, i as int));
            assert(line@ =~= strip_cr(rest.subrange(0, i - pos)));
            assert(rest.subrange(i - pos + 1, rest.len() as int) =~= chars@.subrange(
                i + 1,
                n as int,
            ));
            out.push(line);
            assert(out.deep_view() =~= before.push(line@));
            assert(before.push(line@) + lines(chars@.subrange(i + 1, n as int)) =~= before
                + lines(rest));
            pos = i + 1;
        } else {
            assert(find_from(rest, '\n', 0) == -1);
            let line = string_of(&chars, pos, n);
            out.push(line);
            assert(out.deep_view() =~= before.push(line@));
            assert(lines(chars@.subrange(n as int, n as int)) =~= Seq::empty());
            assert(before.push(line@) + lines(chars@.subrange(n as int, n as int)) =~= before
                + lines(rest));
            pos = n;
        }
    }
    assert(lines(chars@.subrange(n as int, n as int)) =~= Seq::empty());
    assert(out.deep_view() + Seq::<Seq<char>>::empty() =~= out.deep_view());
    out
}

/// Reads a document, links resolved against `source`.
pub fn parse_doc(text_str: &str, source: &Url) -> (r: Vec<GemTextLine>)
    ensures
        r.deep_view() == doc_of(text_str@, source@),
{
    let ls = split_lines(text_str);
    let mut vec: Vec<GemTextLine> = Vec::new();
    let mut preformat = false;
    let mut i: usize = 0;
    let ghost all = ls.deep_view();
    assert(vec.deep_view() =~= Seq::<Line>::empty());
    assert(all.skip(0) =~= all);
    while i < ls.len()
        invariant
            i <= ls.len(),
            all == ls.deep_view(),
            vec.deep_view() + parse_lines(all.skip(i as int), source@, preformat) == parse_lines(
                all,
                source@,
                false,
            ),
        decreases ls.len() - i,
    {
        let ghost rest = all.skip(i as int);
        let ghost before = vec.deep_view();
        assert(rest[0] == ls[i as int]@);
        assert(rest.drop_first() =~= all.skip(i + 1));
        let line = ls[i].as_str();
        if is_toggle(line) {
            preformat = !preformat;
        } else if preformat {
            let item = GemTextLine::PreFormat(line.to_owned());
            vec.push(item);
            assert(vec.deep_view() =~= before.push(item@));
            assert(before.push(item@) + parse_lines(all.skip(i + 1), source@, preformat)
                =~= before + parse_lines(rest, source@, preformat));
        } else {
            let item = parse_formatted(line, source);
            vec.push(item);
            assert(vec.deep_view() =~= before.push(item@));
            assert(before.push(item@) + parse_lines(all.skip(i + 1), source@, preformat)
                =~= before + parse_lines(rest, source@, preformat));
        }
        i += 1;
    }
    assert(parse_lines(all.skip(ls.len() as int), source@, preformat) =~= Seq::empty());
    assert(vec.deep_view() + Seq::<Line>::empty() =~= vec.deep_view());
    vec
}

} // verus!
