//! A cue-sheet reader: line by line, a sheet names files (`FILE "..."`),
//! track numbers (`TRACK nn`), titles (`TITLE "..."`) and index positions
//! (`INDEX nn mm:ss:ff`). Lines that carry none of these, or carry one in a
//! broken form (no quoted value, a track number that is not a number), say
//! nothing and are passed over.

use vstd::prelude::*;
use crate::text::{all_digits, digits_value, is_ascii_digit, is_prefix_of, str_starts_with};

verus! {

/// What one cue line says. This is the parse's mathematical value; fields are
/// character sequences and unbounded integers.
pub enum CueValue {
    File(Seq<char>),
    Track(int),
    Title(Seq<char>),
    Index(Seq<char>),
}

/// What one cue line says, as the parser hands it out.
#[derive(Debug, Clone, PartialEq, Eq)]
pub enum CueDirective {
    File(String),
    Track(u32),
    Title(String),
    Index(String),
}

/// The mathematical value of a parsed directive.
pub open spec fn directive_view(d: CueDirective) -> CueValue {
    match d {
        CueDirective::File(s) => CueValue::File(s@),
        CueDirective::Track(n) => CueValue::Track(n as int),
        CueDirective::Title(s) => CueValue::Title(s@),
        CueDirective::Index(s) => CueValue::Index(s@),
    }
}

/// The mathematical values of a list of directives.
pub open spec fn directives_view(ds: Seq<CueDirective>) -> Seq<CueValue> {
    ds.map_values(|d: CueDirective| directive_view(d))
}

/// Whitespace inside a line.
pub open spec fn is_line_space(c: char) -> bool {
    c == ' ' || c == '\t' || c == '\r'
}

/// Where the line starting at `i` ends: the next newline, or the end.
pub open spec fn line_end(s: Seq<char>, i: int) -> int
    decreases s.len() - i when 0 <= i <= s.len()
{
    if i >= s.len() {
        i
    } else if s[i] == '\n' {
        i
    } else {
        line_end(s, i + 1)
    }
}

pub proof fn lemma_line_end_bounds(s: Seq<char>, i: int)
    requires
        0 <= i <= s.len(),
    ensures
        i <= line_end(s, i) <= s.len(),
    decreases s.len() - i,
{
    if i < s.len() && s[i] != '\n' {
        lemma_line_end_bounds(s, i + 1);
    }
}

/// The first non-space position at or after `i`.
pub open spec fn skip_spaces(s: Seq<char>, i: int) -> int
    decreases s.len() - i when 0 <= i <= s.len()
{
    if i >= s.len() {
        i
    } else if is_line_space(s[i]) {
        skip_spaces(s, i + 1)
    } else {
        i
    }
}

pub proof fn lemma_skip_spaces_bounds(s: Seq<char>, i: int)
    requires
        0 <= i <= s.len(),
    ensures
        i <= skip_spaces(s, i) <= s.len(),
    decreases s.len() - i,
{
    if i < s.len() && is_line_space(s[i]) {
        lemma_skip_spaces_bounds(s, i + 1);
    }
}

/// Where the token starting at `i` ends: the next space, or the end.
pub open spec fn token_end(s: Seq<char>, i: int) -> int
    decreases s.len() - i when 0 <= i <= s.len()
{
    if i >= s.len() {
        i
    } else if is_line_space(s[i]) {
        i
    } else {
        token_end(s, i + 1)
    }
}

pub proof fn lemma_token_end_bounds(s: Seq<char>, i: int)
    requires
        0 <= i <= s.len(),
    ensures
        i <= token_end(s, i) <= s.len(),
    decreases s.len() - i,
{
    if i < s.len() && !is_line_space(s[i]) {
        lemma_token_end_bounds(s, i + 1);
    }
}

/// The position past the last non-space character before `j`.
pub open spec fn trim_end_idx(s: Seq<char>, j: int) -> int
    decreases j when 0 <= j <= s.len()
{
    if j <= 0 {
        0
    } else if is_line_space(s[j - 1]) {
        trim_end_idx(s, j - 1)
    } else {
        j
    }
}

/// The line with spaces stripped from both ends.
pub open spec fn trimmed(s: Seq<char>) -> Seq<char> {
    let a = skip_spaces(s, 0);
    let b = trim_end_idx(s, s.len() as int);
    if a < b {
        s.subrange(a, b)
    } else {
        Seq::empty()
    }
}

/// The first position of `c` at or after `i`, if any.
pub open spec fn find_from(s: Seq<char>, i: int, c: char) -> Option<int>
    decreases s.len() - i when 0 <= i <= s.len()
{
    if i >= s.len() {
        None
    } else if s[i] == c {
        Some(i)
    } else {
        find_from(s, i + 1, c)
    }
}

pub proof fn lemma_find_from_bounds(s: Seq<char>, i: int, c: char)
    requires
        0 <= i <= s.len(),
    ensures
        find_from(s, i, c) matches Some(p) ==> i <= p < s.len() && s[p] == c,
    decreases s.len() - i,
{
    if i < s.len() && s[i] != c {
        lemma_find_from_bounds(s, i + 1, c);
    }
}

/// What stands between the first pair of double quotes, if the line has one.
pub open spec fn quoted(s: Seq<char>) -> Option<Seq<char>> {
    match find_from(s, 0, '"') {
        None => None,
        Some(p) => match find_from(s, p + 1, '"') {
            None => None,
            Some(q) => Some(s.subrange(p + 1, q)),
        },
    }
}

/// The `n`-th whitespace-separated field at or after `i`, counted from zero.
pub open spec fn nth_field_from(s: Seq<char>, i: int, n: int) -> Option<Seq<char>>
    decreases n when 0 <= i <= s.len() && n >= 0 via nth_field_decreases
{
    let a = skip_spaces(s, i);
    if a >= s.len() {
        None
    } else {
        let e = token_end(s, a);
        if n == 0 {
            Some(s.subrange(a, e))
        } else {
            nth_field_from(s, e, n - 1)
        }
    }
}

#[via_fn]
proof fn nth_field_decreases(s: Seq<char>, i: int, n: int) {
    lemma_skip_spaces_bounds(s, i);
    if skip_spaces(s, i) < s.len() {
        lemma_token_end_bounds(s, skip_spaces(s, i));
    }
}

/// What one line of the sheet says, if anything: the directives are read off
/// the trimmed line, a broken directive says nothing, and a track number is
/// taken only when its field is all digits and fits the type.
pub open spec fn cue_line_value(line: Seq<char>) -> Option<CueValue> {
    let t = trimmed(line);
    if t.len() == 0 {
        None
    } else if is_prefix_of("FILE"@, t) {
        match quoted(t) {
            Some(f) => Some(CueValue::File(f)),
            None => None,
        }
    } else if is_prefix_of("TRACK"@, t) {
        match nth_field_from(t, 0, 1) {
            Some(num) => if all_digits(num) && digits_value(num) <= u32::MAX {
                Some(CueValue::Track(digits_value(num)))
            } else {
                None
            },
            None => None,
        }
    } else if is_prefix_of("TITLE"@, t) {
        match quoted(t) {
            Some(f) => Some(CueValue::Title(f)),
            None => None,
        }
    } else if is_prefix_of("INDEX"@, t) {
        match nth_field_from(t, 0, 2) {
            Some(ix) => Some(CueValue::Index(ix)),
            None => None,
        }
    } else {
        None
    }
}

/// Everything the sheet says from position `i` on, line by line, in order.
pub open spec fn cue_from(s: Seq<char>, i: int) -> Seq<CueValue>
    decreases s.len() - i + 1 when 0 <= i <= s.len() + 1 via cue_from_decreases
{
    if i > s.len() {
        Seq::empty()
    } else {
        let e = line_end(s, i);
        let rest = cue_from(s, e + 1);
        match cue_line_value(s.subrange(i, e)) {
            Some(v) => seq![v] + rest,
            None => rest,
        }
    }
}

#[via_fn]
proof fn cue_from_decreases(s: Seq<char>, i: int) {
    if i <= s.len() {
        lemma_line_end_bounds(s, i);
    }
}

/// The position of the next newline at or after `i`, or the end.
fn find_line_end(s: &str, i: usize) -> (r: usize)
    requires
        i <= s@.len(),
    ensures
        r == line_end(s@, i as int),
        i <= r <= s@.len(),
{
    let len = s.unicode_len();
    let mut j: usize = i;
    while j < len
        invariant
            i <= j <= len,
            len == s@.len(),
            line_end(s@, i as int) == line_end(s@, j as int),
        decreases len - j,
    {
        if s.get_char(j) == '\n' {
            return j;
        }
        j = j + 1;
    }
    len
}

/// The first position of `c` at or after `i`, if any.
fn find_char(s: &str, i: usize, c: char) -> (r: Option<usize>)
    requires
        i <= s@.len(),
    ensures
        match r {
            Some(p) => find_from(s@, i as int, c) == Some(p as int) && i <= p < s@.len(),
            None => find_from(s@, i as int, c) is None,
        },
{
    let len = s.unicode_len();
    let mut j: usize = i;
    while j < len
        invariant
            i <= j <= len,
            len == s@.len(),
            find_from(s@, i as int, c) == find_from(s@, j as int, c),
        decreases len - j,
    {
        if s.get_char(j) == c {
            return Some(j);
        }
        j = j + 1;
    }
    None
}

/// Whitespace inside a line.
fn is_space_char(c: char) -> (r: bool)
    ensures
        r == is_line_space(c),
{
    c == ' ' || c == '\t' || c == '\r'
}

/// The first non-space position at or after `i`.
fn skip_spaces_at(s: &str, i: usize) -> (r: usize)
    requires
        i <= s@.len(),
    ensures
        r == skip_spaces(s@, i as int),
        i <= r <= s@.len(),
{
    let len = s.unicode_len();
    let mut j: usize = i;
    while j < len
        invariant
            i <= j <= len,
            len == s@.len(),
            skip_spaces(s@, i as int) == skip_spaces(s@, j as int),
        decreases len - j,
    {
        if !is_space_char(s.get_char(j)) {
            return j;
        }
        j = j + 1;
    }
    len
}

/// Where the token starting at `i` ends.
fn token_end_at(s: &str, i: usize) -> (r: usize)
    requires
        i <= s@.len(),
    ensures
        r == token_end(s@, i as int),
        i <= r <= s@.len(),
{
    let len = s.unicode_len();
    let mut j: usize = i;
    while j < len
        invariant
            i <= j <= len,
            len == s@.len(),
            token_end(s@, i as int) == token_end(s@, j as int),
        decreases len - j,
    {
        if is_space_char(s.get_char(j)) {
            return j;
        }
        j = j + 1;
    }
    len
}

/// The position past the last non-space character of the line.
fn trim_end_at(s: &str) -> (r: usize)
    ensures
        r == trim_end_idx(s@, s@.len() as int),
        r <= s@.len(),
{
    let len = s.unicode_len();
    let mut b: usize = len;
    while b > 0
        invariant
            b <= len,
            len == s@.len(),
            trim_end_idx(s@, len as int) == trim_end_idx(s@, b as int),
        decreases b,
    {
        if !is_space_char(s.get_char(b - 1)) {
            return b;
        }
        b = b - 1;
    }
    0
}

/// The line with spaces stripped from both ends.
fn trim_line<'a>(s: &'a str) -> (r: &'a str)
    ensures
        r@ == trimmed(s@),
{
    let a = skip_spaces_at(s, 0);
    let b = trim_end_at(s);
    if a >= b {
        let empty = s.substring_char(0, 0);
        assert(empty@ =~= trimmed(s@));
        empty
    } else {
        s.substring_char(a, b)
    }
}

/// What stands between the first pair of double quotes, if anything.
fn quoted_text(t: &str) -> (r: Option<String>)
    ensures
        match r {
            Some(f) => quoted(t@) == Some(f@),
            None => quoted(t@) is None,
        },
{
    let len = t.unicode_len();
    match find_char(t, 0, '"') {
        None => None,
        Some(p) => {
            assert(p < len);
            match find_char(t, p + 1, '"') {
                None => None,
                Some(q) => Some(t.substring_char(p + 1, q).to_owned()),
            }
        },
    }
}

/// The `n`-th whitespace-separated field of the line, counted from zero.
fn nth_field(s: &str, n: usize) -> (r: Option<(usize, usize)>)
    ensures
        match r {
            Some((a, e)) => a <= e <= s@.len() && nth_field_from(s@, 0, n as int) == Some(
                s@.subrange(a as int, e as int),
            ),
            None => nth_field_from(s@, 0, n as int) is None,
        },
{
    let len = s.unicode_len();
    let mut i: usize = 0;
    let mut k: usize = n;
    loop
        invariant
            i <= len,
            len == s@.len(),
            nth_field_from(s@, 0, n as int) == nth_field_from(s@, i as int, k as int),
        decreases k,
    {
        let a = skip_spaces_at(s, i);
        if a >= len {
            return None;
        }
        let e = token_end_at(s, a);
        proof {
            lemma_token_end_bounds(s@, a as int);
        }
        if k == 0 {
            return Some((a, e));
        }
        i = e;
        k = k - 1;
    }
}

/// A decimal number, when the whole string is digits and the value fits.
fn parse_u32_digits(t: &str) -> (r: Option<u32>)
    ensures
        r matches Some(v) ==> all_digits(t@) && digits_value(t@) <= u32::MAX && v == digits_value(
            t@,
        ),
        r is None ==> !(all_digits(t@) && digits_value(t@) <= u32::MAX),
{
    let len: usize = t.unicode_len();
    if len == 0 {
        return None;
    }
    let cap: u64 = u32::MAX as u64;
    let mut acc: u64 = 0;
    let mut over: bool = false;
    let mut i: usize = 0;
    while i < len
        invariant
            i <= len,
            len == t@.len(),
            cap == u32::MAX,
            forall|j: int| 0 <= j < i ==> is_ascii_digit(t@[j]),
            !over ==> acc == digits_value(t@.take(i as int)) && acc <= cap,
            over ==> digits_value(t@.take(i as int)) > cap,
        decreases len - i,
    {
        let c = t.get_char(i);
        let cu = c as u32;
        if cu < 48 || cu > 57 {
            return None;
        }
        let d: u64 = (cu - 48) as u64;
        proof {
            assert(t@.take(i + 1).drop_last() =~= t@.take(i as int));
            assert(t@.take(i + 1).last() == t@[i as int]);
        }
        if !over {
            acc = acc * 10 + d;
            if acc > cap {
                over = true;
            }
        } else {
            proof {
                let v = digits_value(t@.take(i as int));
                assert(v * 10 + (t@[i as int] as int - 48) > cap) by (nonlinear_arith)
                    requires
                        v > cap,
                        cap >= 0,
                        t@[i as int] as int - 48 >= 0,
                ;
            }
        }
        i = i + 1;
    }
    proof {
        assert(t@.take(len as int) =~= t@);
    }
    if over {
        return None;
    }
    Some(acc as u32)
}

/// What one line of the sheet says, if anything.
fn cue_line(line: &str) -> (r: Option<CueDirective>)
    ensures
        match r {
            Some(d) => cue_line_value(line@) == Some(directive_view(d)),
            None => cue_line_value(line@) is None,
        },
{
    let t = trim_line(line);
    if t.unicode_len() == 0 {
        return None;
    }
    if str_starts_with(t, "FILE") {
        match quoted_text(t) {
            Some(f) => Some(CueDirective::File(f)),
            None => None,
        }
    } else if str_starts_with(t, "TRACK") {
        match nth_field(t, 1) {
            Some((a, e)) => {
                let num = t.substring_char(a, e);
                match parse_u32_digits(num) {
                    Some(v) => Some(CueDirective::Track(v)),
                    None => None,
                }
            },
            None => None,
        }
    } else if str_starts_with(t, "TITLE") {
        match quoted_text(t) {
            Some(f) => Some(CueDirective::Title(f)),
            None => None,
        }
    } else if str_starts_with(t, "INDEX") {
        match nth_field(t, 2) {
            Some((a, e)) => Some(CueDirective::Index(t.substring_char(a, e).to_owned())),
            None => None,
        }
    } else {
        None
    }
}

/// Read a whole cue sheet: every directive its lines carry, in order.
pub fn parse_cue(content: &str) -> (r: Vec<CueDirective>)
    ensures
        directives_view(r@) == cue_from(content@, 0),
{
    let len = content.unicode_len();
    let mut out: Vec<CueDirective> = Vec::new();
    let mut i: usize = 0;
    while i <= len
        invariant
            i <= len + 1,
            len == content@.len(),
            cue_from(content@, 0) == directives_view(out@) + cue_from(content@, i as int),
        decreases len + 1 - i,
    {
        let e = find_line_end(content, i);
        let line = content.substring_char(i, e);
        let d = cue_line(line);
        proof {
            lemma_line_end_bounds(content@, i as int);
        }
        match d {
            Some(x) => {
                let ghost before = out@;
                out.push(x);
                proof {
                    assert(directives_view(out@) =~= directives_view(before).push(
                        directive_view(x),
                    ));
                    assert(directives_view(before).push(directive_view(x)) + cue_from(
                        content@,
                        e + 1,
                    ) =~= directives_view(before) + (seq![directive_view(x)] + cue_from(
                        content@,
                        e + 1,
                    )));
                }
            },
            None => (),
        }
        if e >= len {
            proof {
                assert(cue_from(content@, e + 1) =~= Seq::<CueValue>::empty());
                assert(directives_view(out@) + Seq::<CueValue>::empty() =~= directives_view(
                    out@,
                ));
            }
            return out;
        }
        i = e + 1;
    }
    proof {
        assert(cue_from(content@, i as int) =~= Seq::<CueValue>::empty());
        assert(directives_view(out@) + Seq::<CueValue>::empty() =~= directives_view(out@));
    }
    out
}

} // verus!
