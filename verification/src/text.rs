//! Text as sequences of characters: white space, trimming, splitting a line
//! in two, and wrapping a line to a width. Widths and positions count
//! characters, so no row ever holds part of one.

use vstd::prelude::*;

verus! {

/// White space as Unicode defines it (the property `White_Space`).
pub open spec fn is_ws(c: char) -> bool {
    let u = c as u32;
    ||| 0x09 <= u <= 0x0d
    ||| u == 0x20
    ||| u == 0x85
    ||| u == 0xa0
    ||| u == 0x1680
    ||| 0x2000 <= u <= 0x200a
    ||| u == 0x2028
    ||| u == 0x2029
    ||| u == 0x202f
    ||| u == 0x205f
    ||| u == 0x3000
}

/// The number of white space characters that `s` begins with.
pub open spec fn lead(s: Seq<char>) -> nat
    decreases s.len(),
{
    if s.len() > 0 && is_ws(s[0]) {
        1 + lead(s.drop_first())
    } else {
        0
    }
}

/// The number of white space characters that `s` ends with.
pub open spec fn trail(s: Seq<char>) -> nat
    decreases s.len(),
{
    if s.len() > 0 && is_ws(s.last()) {
        1 + trail(s.drop_last())
    } else {
        0
    }
}

/// `s` without the white space at its start.
pub open spec fn trim_start(s: Seq<char>) -> Seq<char> {
    s.subrange(lead(s) as int, s.len() as int)
}

/// `s` without the white space at its start and at its end.
pub open spec fn trim(s: Seq<char>) -> Seq<char> {
    let t = trim_start(s);
    t.subrange(0, t.len() - trail(t))
}

/// The index of the first `c` in `s` at or after `from`, or -1.
pub open spec fn find_from(s: Seq<char>, c: char, from: int) -> int
    decreases s.len() - from,
{
    if from < 0 || from >= s.len() {
        -1
    } else if s[from] == c {
        from
    } else {
        find_from(s, c, from + 1)
    }
}

/// The index of the first white space in `s` at or after `from`, or -1.
pub open spec fn find_ws(s: Seq<char>, from: int) -> int
    decreases s.len() - from,
{
    if from < 0 || from >= s.len() {
        -1
    } else if is_ws(s[from]) {
        from
    } else {
        find_ws(s, from + 1)
    }
}

/// The index of the last space in `s` at or after `lo` and before `hi`,
/// or -1.
pub open spec fn last_space(s: Seq<char>, lo: int, hi: int) -> int
    decreases hi - lo,
{
    if hi <= lo || hi > s.len() || lo < 0 {
        -1
    } else if s[hi - 1] == ' ' {
        hi - 1
    } else {
        last_space(s, lo, hi - 1)
    }
}

pub proof fn lead_within(s: Seq<char>)
    ensures
        lead(s) <= s.len(),
    decreases s.len(),
{
    if s.len() > 0 && is_ws(s[0]) {
        lead_within(s.drop_first());
    }
}

pub proof fn trail_within(s: Seq<char>)
    ensures
        trail(s) <= s.len(),
    decreases s.len(),
{
    if s.len() > 0 && is_ws(s.last()) {
        trail_within(s.drop_last());
    }
}

/// `lead` is the index of the first character that is no white space.
pub proof fn lead_is(s: Seq<char>, i: nat)
    requires
        i <= s.len(),
        forall|k: int| 0 <= k < i ==> is_ws(s[k]),
        i == s.len() || !is_ws(s[i as int]),
    ensures
        lead(s) == i,
    decreases i,
{
    if i > 0 {
        lead_is(s.drop_first(), (i - 1) as nat);
    }
}

/// `trail` counts back to the last character that is no white space.
pub proof fn trail_is(s: Seq<char>, n: nat)
    requires
        n <= s.len(),
        forall|k: int| s.len() - n <= k < s.len() ==> is_ws(s[k]),
        n == s.len() || !is_ws(s[s.len() - n - 1]),
    ensures
        trail(s) == n,
    decreases n,
{
    if n > 0 {
        trail_is(s.drop_last(), (n - 1) as nat);
    }
}

/// A trimmed text is a run of the characters of the text.
pub proof fn trim_is_slice(s: Seq<char>)
    ensures
        lead(s) + trail(trim_start(s)) <= s.len(),
        trim(s) == s.subrange(lead(s) as int, s.len() - trail(trim_start(s))),
{
    lead_within(s);
    trail_within(trim_start(s));
    assert(trim(s) =~= s.subrange(lead(s) as int, s.len() - trail(trim_start(s))));
}

/// Whether `c` is white space.
pub fn is_whitespace(c: char) -> (r: bool)
    ensures
        r == is_ws(c),
{
    let u: u32 = c as u32;
    (0x09 <= u && u <= 0x0d) || u == 0x20 || u == 0x85 || u == 0xa0 || u == 0x1680 || (0x2000
        <= u && u <= 0x200a) || u == 0x2028 || u == 0x2029 || u == 0x202f || u == 0x205f || u
        == 0x3000
}

/// The characters of `s`.
pub fn chars_of(s: &str) -> (v: Vec<char>)
    ensures
        v@ == s@,
{
    let mut v: Vec<char> = Vec::new();
    for c in it: s.chars()
        invariant
            v@ == it.seq().take(it.index() as int),
            it.seq() == s@,
    {
        v.push(c);
    }
    v
}

/// `String::push`: the string grows by the one character at its end.
#[verifier::external_body]
pub(crate) fn push_char(s: &mut String, c: char)
    ensures
        final(s)@ == old(s)@.push(c),
{
    s.push(c);
}

/// The text of the characters from `from` to just before `to`.
pub(crate) fn string_of(chars: &Vec<char>, from: usize, to: usize) -> (r: String)
    requires
        from <= to <= chars.len(),
    ensures
        r@ == chars@.subrange(from as int, to as int),
{
    let mut r = String::new();
    let mut i: usize = from;
    while i < to
        invariant
            from <= i <= to <= chars.len(),
            r@ == chars@.subrange(from as int, i as int),
        decreases to - i,
    {
        push_char(&mut r, chars[i]);
        i += 1;
        assert(chars@.subrange(from as int, i as int) == chars@.subrange(
            from as int,
            i as int - 1,
        ).push(chars@[i as int - 1]));
    }
    r
}

/// Where the trimmed part of the characters from `from` to just before `to`
/// begins and ends.
pub(crate) fn trim_bounds(chars: &Vec<char>, from: usize, to: usize) -> (r: (usize, usize))
    requires
        from <= to <= chars.len(),
    ensures
        from <= r.0 <= r.1 <= to,
        chars@.subrange(r.0 as int, r.1 as int) == trim(chars@.subrange(from as int, to as int)),
{
    let ghost s = chars@.subrange(from as int, to as int);
    let mut a: usize = from;
    while a < to && is_whitespace(chars[a])
        invariant
            from <= a <= to <= chars.len(),
            forall|k: int| from <= k < a ==> is_ws(chars@[k]),
        decreases to - a,
    {
        a += 1;
    }
    let mut b: usize = to;
    while b > a && is_whitespace(chars[b - 1])
        invariant
            from <= a <= b <= to <= chars.len(),
            forall|k: int| b <= k < to ==> is_ws(chars@[k]),
        decreases b,
    {
        b -= 1;
    }
    proof {
        lead_is(s, (a - from) as nat);
        let t = trim_start(s);
        assert(t =~= chars@.subrange(a as int, to as int));
        trail_is(t, (to - b) as nat);
        assert(chars@.subrange(a as int, b as int) =~= trim(s));
    }
    (a, b)
}


/// The trimmed text of the characters from `from` to just before `to`.
pub(crate) fn trimmed_string(chars: &Vec<char>, from: usize, to: usize) -> (r: String)
    requires
        from <= to <= chars.len(),
    ensures
        r@ == trim(chars@.subrange(from as int, to as int)),
{
    let (a, b) = trim_bounds(chars, from, to);
    string_of(chars, a, b)
}

/// The index of the last space among the characters from `lo` to just
/// before `hi`.
pub(crate) fn find_last_space(chars: &Vec<char>, lo: usize, hi: usize) -> (r: Option<usize>)
    requires
        lo <= hi <= chars.len(),
    ensures
        r is Some ==> r->0 == last_space(chars@, lo as int, hi as int) && lo <= r->0 < hi,
        r is None ==> last_space(chars@, lo as int, hi as int) == -1,
{
    let mut i: usize = hi;
    while i > lo
        invariant
            lo <= i <= hi <= chars.len(),
            last_space(chars@, lo as int, hi as int) == last_space(chars@, lo as int, i as int),
        decreases i,
    {
        if chars[i - 1] == ' ' {
            return Some(i - 1);
        }
        i -= 1;
    }
    None
}

/// The index of the first `c` among `chars`.
pub(crate) fn find_char(chars: &Vec<char>, c: char) -> (r: Option<usize>)
    ensures
        r is Some ==> r->0 == find_from(chars@, c, 0) && r->0 < chars.len() && chars@[r->0 as int]
            == c,
        r is None ==> find_from(chars@, c, 0) == -1,
{
    let mut i: usize = 0;
    while i < chars.len()
        invariant
            i <= chars.len(),
            find_from(chars@, c, 0) == find_from(chars@, c, i as int),
        decreases chars.len() - i,
    {
        if chars[i] == c {
            return Some(i);
        }
        i += 1;
    }
    None
}

/// The index of the first white space among `chars`.
pub(crate) fn find_whitespace(chars: &Vec<char>) -> (r: Option<usize>)
    ensures
        r is Some ==> r->0 == find_ws(chars@, 0) && r->0 < chars.len(),
        r is None ==> find_ws(chars@, 0) == -1,
{
    let mut i: usize = 0;
    while i < chars.len()
        invariant
            i <= chars.len(),
            find_ws(chars@, 0) == find_ws(chars@, i as int),
        decreases chars.len() - i,
    {
        if is_whitespace(chars[i]) {
            return Some(i);
        }
        i += 1;
    }
    None
}

/// A line trimmed and split in two at its first tab or, if it has none, at
/// its first space; both parts are trimmed. A line without either gives
/// itself twice.
pub open spec fn split_once(s: Seq<char>) -> (Seq<char>, Seq<char>) {
    let t = trim(s);
    let tab = find_from(t, '\t', 0);
    let space = find_from(t, ' ', 0);
    let at = if tab >= 0 { tab } else { space };
    if at >= 0 {
        (trim(t.subrange(0, at)), trim(t.subrange(at, t.len() as int)))
    } else {
        (t, t)
    }
}

/// Splits a line in two at its first tab or, if it has none, at its first
/// space.
pub fn split_whitespace_once<'a>(source: &'a str) -> (r: (&'a str, &'a str))
    ensures
        (r.0@, r.1@) == split_once(source@),
{
    let chars = chars_of(source);
    let (a, b) = trim_bounds(&chars, 0, chars.len());
    assert(chars@.subrange(0, chars.len() as int) == chars@);
    let line = source.substring_char(a, b);
    let t = chars_of(line);
    let at = match find_char(&t, '\t') {
        Some(i) => Some(i),
        None => find_char(&t, ' '),
    };
    match at {
        Some(i) => {
            let (a1, b1) = trim_bounds(&t, 0, i);
            let (a2, b2) = trim_bounds(&t, i, t.len());
            (line.substring_char(a1, b1), line.substring_char(a2, b2))
        },
        None => (line, line),
    }
}

/// Where the row that begins at `start` ends: at the last space within `w`
/// characters, unless the row begins with it or there is none; then after
/// `w` characters.
pub open spec fn break_at(s: Seq<char>, start: int, w: int) -> int {
    let p = last_space(s, start, start + w);
    if p > start {
        p
    } else {
        start + w
    }
}

/// The rows that the text from `start` on is wrapped into. What is left
/// fits a row when it has at most `w` characters; a width of 0 is no width
/// to wrap to, and leaves the text in one row. Every row is trimmed.
/// A break always lies after `start` and within the text
/// (`break_at_advances`), so the empty result is never taken.
pub open spec fn wrap_from(s: Seq<char>, w: nat, start: nat) -> Seq<Seq<char>>
    decreases s.len() - start,
{
    if w == 0 || start + w >= s.len() {
        seq![trim(s.subrange(start as int, s.len() as int))]
    } else {
        let p = break_at(s, start as int, w as int) as nat;
        if start < p <= s.len() {
            seq![trim(s.subrange(start as int, p as int))] + wrap_from(s, w, p)
        } else {
            seq![]
        }
    }
}

/// The rows that a line is wrapped into.
pub open spec fn wrap_rows(s: Seq<char>, w: nat) -> Seq<Seq<char>> {
    wrap_from(s, w, 0)
}

/// Wraps a line to rows of at most `screenwidth` characters, breaking at
/// spaces where it can.
pub fn wrap(line: &str, screenwidth: u16) -> (r: Vec<String>)
    ensures
        r.deep_view() == wrap_rows(line@, screenwidth as nat),
        forall|i: int| 0 <= i < r.len() ==> is_run_of(#[trigger] r[i]@, line@),
{

    let chars = chars_of(line);
    let width = screenwidth as usize;
    let n = chars.len();
    let mut wrapped: Vec<String> = Vec::new();
    let mut start: usize = 0;
    assert(wrapped.deep_view() =~= Seq::<Seq<char>>::empty());
    while width > 0 && n - start > width
        invariant
            n == chars.len(),
            start <= n,
            width == screenwidth,
            wrapped.deep_view() + wrap_from(chars@, width as nat, start as nat) == wrap_rows(
                chars@,
                width as nat,
            ),
        decreases n - start,
    {
        let end = match find_last_space(&chars, start, start + width) {
            Some(p) => if p > start {
                p
            } else {
                start + width
            },
            None => start + width,
        };
        assert(end == break_at(chars@, start as int, width as int));
        let row = trimmed_string(&chars, start, end);
        let ghost before = wrapped.deep_view();
        wrapped.push(row);
        assert(wrapped.deep_view() =~= before.push(row@));
        assert(before.push(row@) + wrap_from(chars@, width as nat, end as nat) =~= before
            + wrap_from(chars@, width as nat, start as nat));
        start = end;
    }
    let row = trimmed_string(&chars, start, n);
    let ghost before = wrapped.deep_view();
    wrapped.push(row);
    assert(wrapped.deep_view() =~= before.push(row@));
    assert(before.push(row@) =~= before + wrap_from(chars@, width as nat, start as nat));
    proof {
        wrap_rows_are_runs(line@, width as nat, 0);
        assert forall|i: int| 0 <= i < wrapped.len() implies is_run_of(
            #[trigger] wrapped[i]@,
            line@,
        ) by {
            assert(wrapped[i]@ == wrapped.deep_view()[i]);
        }
    }
    wrapped
}


/// A break lies after the start of its row, at most `w` characters on.
pub proof fn break_at_advances(s: Seq<char>, start: int, w: int)
    requires
        0 <= start,
        0 < w,
        start + w <= s.len(),
    ensures
        start < break_at(s, start, w) <= start + w,
{
    last_space_within(s, start, start + w);
}

pub proof fn last_space_within(s: Seq<char>, lo: int, hi: int)
    ensures
        last_space(s, lo, hi) == -1 || (lo <= last_space(s, lo, hi) < hi && s[last_space(
            s,
            lo,
            hi,
        )] == ' '),
    decreases hi - lo,
{
    if !(hi <= lo || hi > s.len() || lo < 0) && s[hi - 1] != ' ' {
        last_space_within(s, lo, hi - 1);
    }
}

/// A line that fits the width is one row: the line, trimmed.
pub proof fn wrap_short_line(s: Seq<char>, w: nat)
    requires
        s.len() <= w,
    ensures
        wrap_rows(s, w) == seq![trim(s)],
{
    assert(s.subrange(0, s.len() as int) == s);
}

/// `row` is a run of consecutive characters of `s`.
pub open spec fn is_run_of(row: Seq<char>, s: Seq<char>) -> bool {
    exists|a: int, b: int| 0 <= a <= b <= s.len() && row == s.subrange(a, b)
}

/// Every row of a wrapped line is a run of consecutive characters of the
/// line: whole characters, in their order, none of them split or changed.
pub proof fn wrap_rows_are_runs(s: Seq<char>, w: nat, start: nat)
    requires
        start <= s.len(),
    ensures
        forall|i: int|
            0 <= i < wrap_from(s, w, start).len() ==> is_run_of(
                #[trigger] wrap_from(s, w, start)[i],
                s,
            ),
    decreases s.len() - start,
{
    let rows = wrap_from(s, w, start);
    if w == 0 || start + w >= s.len() {
        trimmed_run(s, start as int, s.len() as int);
    } else {
        break_at_advances(s, start as int, w as int);
        let p = break_at(s, start as int, w as int) as nat;
        trimmed_run(s, start as int, p as int);
        wrap_rows_are_runs(s, w, p);
        let more = wrap_from(s, w, p);
        assert forall|i: int| 0 <= i < rows.len() implies is_run_of(#[trigger] rows[i], s) by {
            if i > 0 {
                assert(rows[i] == more[i - 1]);
            }
        }
    }
}

/// A run of `s`, trimmed, is a run of `s`.
pub proof fn trimmed_run(s: Seq<char>, a: int, b: int)
    requires
        0 <= a <= b <= s.len(),
    ensures
        is_run_of(trim(s.subrange(a, b)), s),
{
    let x = s.subrange(a, b);
    trim_is_slice(x);
    let a2 = a + lead(x);
    let b2 = b - trail(trim_start(x));
    assert(trim(x) =~= s.subrange(a2, b2));
}

/// No row of a wrapped line is longer than the width, unless the width
/// is 0.
pub proof fn wrap_rows_fit(s: Seq<char>, w: nat, start: nat)
    requires
        start <= s.len(),
        w > 0,
    ensures
        forall|i: int|
            0 <= i < wrap_from(s, w, start).len() ==> (#[trigger] wrap_from(s, w, start)[i]).len() <= w,
    decreases s.len() - start,
{
    let rows = wrap_from(s, w, start);
    if start + w >= s.len() {
        trim_is_slice(s.subrange(start as int, s.len() as int));
    } else {
        break_at_advances(s, start as int, w as int);
        let p = break_at(s, start as int, w as int) as nat;
        trim_is_slice(s.subrange(start as int, p as int));
        wrap_rows_fit(s, w, p);
        let more = wrap_from(s, w, p);
        assert forall|i: int| 0 <= i < rows.len() implies (#[trigger] rows[i]).len() <= w by {
            if i > 0 {
                assert(rows[i] == more[i - 1]);
            }
        }
    }
}

/// The characters of `s` that are no white space.
pub open spec fn solid(s: Seq<char>) -> Seq<char> {
    s.filter(|c: char| !is_ws(c))
}

/// The rows in one line, a single space between each two.
pub open spec fn joined(rows: Seq<Seq<char>>) -> Seq<char>
    decreases rows.len(),
{
    if rows.len() == 0 {
        Seq::empty()
    } else if rows.len() == 1 {
        rows[0]
    } else {
        rows[0] + seq![' '] + joined(rows.drop_first())
    }
}

pub proof fn solid_add(a: Seq<char>, b: Seq<char>)
    ensures
        solid(a + b) == solid(a) + solid(b),
{
    Seq::filter_distributes_over_add(a, b, |c: char| !is_ws(c));
}

/// White space alone leaves nothing solid.
pub proof fn solid_of_ws(s: Seq<char>)
    requires
        forall|k: int| 0 <= k < s.len() ==> is_ws(s[k]),
    ensures
        solid(s) == Seq::<char>::empty(),
    decreases s.len(),
{
    reveal(Seq::filter);
    if s.len() > 0 {
        solid_of_ws(s.drop_last());
    }
}

pub proof fn lead_is_ws(s: Seq<char>)
    ensures
        lead(s) <= s.len(),
        forall|k: int| 0 <= k < lead(s) ==> is_ws(s[k]),
    decreases s.len(),
{
    if s.len() > 0 && is_ws(s[0]) {
        lead_is_ws(s.drop_first());
        assert forall|k: int| 0 <= k < lead(s) implies is_ws(s[k]) by {
            if k > 0 {
                assert(s[k] == s.drop_first()[k - 1]);
            }
        }
    }
}

pub proof fn trail_is_ws(s: Seq<char>)
    ensures
        trail(s) <= s.len(),
        forall|k: int| s.len() - trail(s) <= k < s.len() ==> is_ws(s[k]),
    decreases s.len(),
{
    if s.len() > 0 && is_ws(s.last()) {
        trail_is_ws(s.drop_last());
        assert forall|k: int| s.len() - trail(s) <= k < s.len() implies is_ws(s[k]) by {
            if k < s.len() - 1 {
                assert(s[k] == s.drop_last()[k]);
            }
        }
    }
}

/// Trimming takes away white space only.
pub proof fn solid_trim(s: Seq<char>)
    ensures
        solid(trim(s)) == solid(s),
{
    lead_is_ws(s);
    let t = trim_start(s);
    trail_is_ws(t);
    let head = s.subrange(0, lead(s) as int);
    let tail = t.subrange(t.len() - trail(t), t.len() as int);
    assert(s =~= head + t);
    assert(t =~= trim(s) + tail);
    solid_of_ws(head);
    solid_of_ws(tail);
    solid_add(head, t);
    solid_add(trim(s), tail);
    assert(solid(s) =~= solid(trim(s)));
}

pub proof fn wrap_from_has_rows(s: Seq<char>, w: nat, start: nat)
    requires
        start <= s.len(),
    ensures
        wrap_from(s, w, start).len() >= 1,
{
    if !(w == 0 || start + w >= s.len()) {
        break_at_advances(s, start as int, w as int);
    }
}

/// The rows of the text from `start` on, joined with single spaces, hold
/// the characters of that text but for white space.
pub proof fn wrap_from_keeps_text(s: Seq<char>, w: nat, start: nat)
    requires
        start <= s.len(),
    ensures
        solid(joined(wrap_from(s, w, start))) == solid(s.subrange(start as int, s.len() as int)),
    decreases s.len() - start,
{
    let rest = s.subrange(start as int, s.len() as int);
    if w == 0 || start + w >= s.len() {
        solid_trim(rest);
    } else {
        break_at_advances(s, start as int, w as int);
        let p = break_at(s, start as int, w as int) as nat;
        let row = s.subrange(start as int, p as int);
        let more = wrap_from(s, w, p);
        let rows = wrap_from(s, w, start);
        wrap_from_has_rows(s, w, p);
        wrap_from_keeps_text(s, w, p);
        assert(rows.drop_first() =~= more);
        assert(joined(rows) == trim(row) + seq![' '] + joined(more));
        solid_add(trim(row) + seq![' '], joined(more));
        solid_add(trim(row), seq![' ']);
        solid_of_ws(seq![' ']);
        solid_trim(row);
        assert(rest =~= row + s.subrange(p as int, s.len() as int));
        solid_add(row, s.subrange(p as int, s.len() as int));
        assert(solid(joined(rows)) =~= solid(rest));
    }
}

/// The rows of a wrapped line, joined with single spaces, give the line
/// back up to white space: the same characters that are no white space, in
/// the same order.
pub proof fn wrap_keeps_text(s: Seq<char>, w: nat)
    ensures
        solid(joined(wrap_rows(s, w))) == solid(s),
        solid(joined(wrap_rows(s, w))) == solid(trim(s)),
{
    wrap_from_keeps_text(s, w, 0);
    assert(s.subrange(0, s.len() as int) == s);
    solid_trim(s);
}

/// One row of a wrapped list: the index of the line it comes from, and its
/// text.
pub open spec fn tagged(rows: Seq<Seq<char>>, i: usize) -> Seq<(usize, Seq<char>)> {
    rows.map_values(|r: Seq<char>| (i, r))
}

/// The rows of the first `n` blocks, each with the index of its block; a
/// block is the rows of one line.
pub open spec fn tag_all(blocks: Seq<Seq<Seq<char>>>, n: nat) -> Seq<(usize, Seq<char>)>
    decreases n,
{
    if n == 0 || n > blocks.len() {
        Seq::empty()
    } else {
        tag_all(blocks, (n - 1) as nat) + tagged(blocks[n - 1], (n - 1) as usize)
    }
}

/// The rows of the first `n` lines, each with the index of its line.
pub open spec fn wrap_all(lines: Seq<Seq<char>>, w: nat, n: nat) -> Seq<(usize, Seq<char>)> {
    tag_all(lines.map_values(|l: Seq<char>| wrap_rows(l, w)), n)
}

/// The rows of a list come in the order of their lines, and every row names
/// a line of the list.
pub proof fn tag_all_in_order(blocks: Seq<Seq<Seq<char>>>, n: nat)
    requires
        n <= blocks.len() <= usize::MAX,
    ensures
        forall|i: int| 0 <= i < tag_all(blocks, n).len() ==> (#[trigger] tag_all(blocks, n)[i]).0 < n,
        forall|i: int, j: int|
            0 <= i <= j < tag_all(blocks, n).len() ==> (#[trigger] tag_all(blocks, n)[i]).0 <= (
            #[trigger] tag_all(blocks, n)[j]).0,
    decreases n,
{
    if n > 0 {
        tag_all_in_order(blocks, (n - 1) as nat);
        let all = tag_all(blocks, n);
        let prev = tag_all(blocks, (n - 1) as nat);
        let last = tagged(blocks[n - 1], (n - 1) as usize);
        assert(all == prev + last);
        assert forall|i: int| 0 <= i < all.len() implies (#[trigger] all[i]).0 < n && (i
            >= prev.len() ==> all[i].0 == n - 1) by {
            if i < prev.len() {
                assert(all[i] == prev[i]);
            } else {
                assert(all[i] == last[i - prev.len()]);
            }
        }
        assert forall|i: int, j: int| 0 <= i <= j < all.len() implies (#[trigger] all[i]).0 <= (
        #[trigger] all[j]).0 by {
            if j < prev.len() {
                assert(all[i] == prev[i]);
                assert(all[j] == prev[j]);
            }
        }
    }
}

/// Appends rows, each with the index `i` of the line they come from.
pub(crate) fn push_rows(display: &mut Vec<(usize, String)>, v: &Vec<String>, i: usize)
    ensures
        final(display).deep_view() == old(display).deep_view() + tagged(v.deep_view(), i),
{
    let ghost before = display.deep_view();
    let ghost rows = tagged(v.deep_view(), i);
    let mut j: usize = 0;
    assert(before + rows.take(0) =~= before);
    while j < v.len()
        invariant
            j <= v.len(),
            rows == tagged(v.deep_view(), i),
            display.deep_view() == before + rows.take(j as int),
        decreases v.len() - j,
    {
        let ghost prev = display.deep_view();
        let row = v[j].clone();
        display.push((i, row));
        assert(display.deep_view() =~= prev.push((i, row@)));
        assert(rows.take(j + 1) =~= rows.take(j as int).push((i, row@)));
        j += 1;
    }
    assert(rows.take(v.len() as int) =~= rows);
}

/// Wraps every line of a list; each row comes with the index of its line.
pub fn wrap_list(lines: &Vec<String>, w: u16) -> (r: Vec<(usize, String)>)
    ensures
        r.deep_view() == wrap_all(lines.deep_view(), w as nat, lines.len() as nat),
{
    let mut display: Vec<(usize, String)> = Vec::new();
    let mut i: usize = 0;
    assert(display.deep_view() =~= Seq::empty());
    while i < lines.len()
        invariant
            i <= lines.len(),
            display.deep_view() == wrap_all(lines.deep_view(), w as nat, i as nat),
        decreases lines.len() - i,
    {
        let v = wrap(lines[i].as_str(), w);
        assert(v.deep_view() == wrap_rows(lines.deep_view()[i as int], w as nat));
        push_rows(&mut display, &v, i);
        i += 1;
    }
    display
}

/// Wraps the text of every entry of a list; each row comes with the index
/// of its entry.
pub fn wraplist<T>(lines: &Vec<(T, String)>, w: u16) -> (r: Vec<(usize, String)>)
    ensures
        r.deep_view() == wrap_all(
            lines@.map_values(|p: (T, String)| p.1@),
            w as nat,
            lines.len() as nat,
        ),
{
    let mut display: Vec<(usize, String)> = Vec::new();
    let mut i: usize = 0;
    let ghost texts = lines@.map_values(|p: (T, String)| p.1@);
    assert(display.deep_view() =~= Seq::empty());
    while i < lines.len()
        invariant
            i <= lines.len(),
            texts == lines@.map_values(|p: (T, String)| p.1@),
            display.deep_view() == wrap_all(texts, w as nat, i as nat),
        decreases lines.len() - i,
    {
        let v = wrap(lines[i].1.as_str(), w);
        push_rows(&mut display, &v, i);
        i += 1;
    }
    display
}

/// A line cut to a width. A line shorter than the width stays; a longer one
/// keeps what comes before the last space among its first `w - 2`
/// characters, or what comes after it where it is the first of them, or all
/// of them where there is none, and two dots follow.
pub open spec fn cut_text(s: Seq<char>, w: nat) -> Seq<char> {
    if s.len() < w {
        s
    } else {
        let k = if w >= 2 { w - 2 } else { 0 };
        let p = last_space(s, 0, k);
        let kept = if p > 0 {
            s.subrange(0, p)
        } else if p == 0 {
            s.subrange(1, k)
        } else {
            s.subrange(0, k)
        };
        kept + seq!['.', '.']
    }
}

/// Cuts a line to a width and marks the cut with two dots.
pub fn cut(line: &str, screenwidth: u16) -> (r: String)
    ensures
        r@ == cut_text(line@, screenwidth as nat),
{
    let chars = chars_of(line);
    let width = screenwidth as usize;
    if chars.len() < width {
        let r = string_of(&chars, 0, chars.len());
        assert(chars@.subrange(0, chars.len() as int) == chars@);
        r
    } else {
        let k = width.saturating_sub(2);
        let mut r = match find_last_space(&chars, 0, k) {
            Some(p) => if p > 0 {
                string_of(&chars, 0, p)
            } else {
                string_of(&chars, 1, k)
            },
            None => string_of(&chars, 0, k),
        };
        let ghost kept = r@;
        push_char(&mut r, '.');
        push_char(&mut r, '.');
        assert(r@ =~= kept + seq!['.', '.']);
        r
    }
}

/// Cuts the text of every entry of a list; each comes with its index.
pub fn cutlist<T>(lines: &Vec<(T, String)>, w: u16) -> (r: Vec<(usize, String)>)
    ensures
        r.len() == lines.len(),
        forall|i: int|
            0 <= i < r.len() ==> (#[trigger] r[i]).0 == i && r[i].1@ == cut_text(
                lines[i].1@,
                w as nat,
            ),
{
    let mut display: Vec<(usize, String)> = Vec::new();
    let mut i: usize = 0;
    while i < lines.len()
        invariant
            i <= lines.len(),
            display.len() == i,
            forall|k: int|
                0 <= k < i ==> (#[trigger] display[k]).0 == k && display[k].1@ == cut_text(
                    lines[k].1@,
                    w as nat,
                ),
        decreases lines.len() - i,
    {
        display.push((i, cut(lines[i].1.as_str(), w)));
        i += 1;
    }
    display
}

} // verus!
