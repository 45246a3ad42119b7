//! Flattening a structured diff into the text embedded in prompts.

use vstd::prelude::*;
use crate::text::{append_chars, chars_of, string_from_chars};

verus! {

/// One line of a diff, as the repository reports it.
#[derive(Clone, Debug)]
pub struct DiffLine {
    /// `+` for an added line, `-` for a removed one, anything else for context or headers
    pub origin: char,
    /// The line's number on the old side, if it has one
    pub old_lineno: Option<u32>,
    /// The line's text, with its line ending
    pub content: String,
}

/// The decimal digits of `n`.
pub open spec fn decimal(n: nat) -> Seq<char>
    decreases n,
{
    if n < 10 {
        seq![digit_char(n)]
    } else {
        decimal(n / 10) + seq![digit_char(n % 10)]
    }
}

/// The character of a digit below ten.
pub open spec fn digit_char(d: nat) -> char {
    ((d + 48) as u8) as char
}

/// Whether `s` begins with `prefix`.
pub open spec fn has_prefix(s: Seq<char>, prefix: Seq<char>) -> bool {
    prefix.len() <= s.len() && s.take(prefix.len() as int) == prefix
}

/// The origin marker: `-` and `+` stand for themselves, anything else becomes a space.
pub open spec fn origin_marker(origin: char) -> char {
    if origin == '-' {
        '-'
    } else if origin == '+' {
        '+'
    } else {
        ' '
    }
}

/// Whether a line is a file or hunk header, which passes through unchanged.
pub open spec fn is_header(content: Seq<char>) -> bool {
    has_prefix(content, "diff --git"@) || has_prefix(content, "@@"@)
}

/// The text of one diff line: a header as it is; any other line as its marker, its old
/// line number (0 when it has none), a space and its content.
pub open spec fn diff_line_text(origin: char, old_lineno: Option<u32>, content: Seq<char>) -> Seq<
    char,
> {
    if is_header(content) {
        content
    } else {
        let n: nat = match old_lineno {
            Some(k) => k as nat,
            None => 0,
        };
        seq![origin_marker(origin)] + decimal(n) + seq![' '] + content
    }
}

/// The text of a sequence of diff lines, one after another.
pub open spec fn diff_text(lines: Seq<DiffLine>) -> Seq<char>
    decreases lines.len(),
{
    if lines.len() == 0 {
        Seq::<char>::empty()
    } else {
        let l = lines.last();
        diff_text(lines.drop_last()) + diff_line_text(l.origin, l.old_lineno, l.content@)
    }
}

fn push_decimal(out: &mut Vec<char>, n: u32)
    ensures
        final(out)@ == old(out)@ + decimal(n as nat),
    decreases n,
{
    if n >= 10 {
        push_decimal(out, n / 10);
    }
    let d = (n % 10) as u8;
    out.push((d + 48) as char);
}

fn starts_with_chars(s: &Vec<char>, prefix: &str) -> (r: bool)
    ensures
        r == has_prefix(s@, prefix@),
{
    let p = chars_of(prefix);
    if p.len() > s.len() {
        return false;
    }
    let mut i: usize = 0;
    while i < p.len()
        invariant
            p@ == prefix@,
            p.len() <= s.len(),
            i <= p.len(),
            forall|j: int| 0 <= j < i ==> s@[j] == p@[j],
        decreases p.len() - i,
    {
        if s[i] != p[i] {
            assert(s@.take(p.len() as int)[i as int] != p@[i as int]);
            return false;
        }
        i = i + 1;
    }
    assert(s@.take(p.len() as int) =~= p@);
    true
}

fn push_diff_line(out: &mut Vec<char>, origin: char, old_lineno: Option<u32>, content: &str)
    ensures
        final(out)@ == old(out)@ + diff_line_text(origin, old_lineno, content@),
{
    let cs = chars_of(content);
    if starts_with_chars(&cs, "diff --git") || starts_with_chars(&cs, "@@") {
        append_chars(out, &cs);
    } else {
        let ghost start = out@;
        let marker = if origin == '-' {
            '-'
        } else if origin == '+' {
            '+'
        } else {
            ' '
        };
        out.push(marker);
        let n: u32 = match old_lineno {
            Some(k) => k,
            None => 0,
        };
        push_decimal(out, n);
        out.push(' ');
        append_chars(out, &cs);
        assert(out@ =~= start + diff_line_text(origin, old_lineno, content@));
    }
}

/// The text of one diff line: a header (`diff --git ...` or `@@ ...`) as it is; any other
/// line as its origin marker, its old line number (0 when it has none), a space and its
/// content.
pub fn format_diff_line(origin: char, old_lineno: Option<u32>, content: &str) -> (r: String)
    ensures
        r@ == diff_line_text(origin, old_lineno, content@),
{
    let mut out: Vec<char> = Vec::new();
    push_diff_line(&mut out, origin, old_lineno, content);
    string_from_chars(&out)
}

/// The text of a whole diff: each line's text, in order.
pub fn diff_to_text(lines: &Vec<DiffLine>) -> (r: String)
    ensures
        r@ == diff_text(lines@),
{
    let mut out: Vec<char> = Vec::new();
    let mut i: usize = 0;
    while i < lines.len()
        invariant
            i <= lines.len(),
            out@ == diff_text(lines@.take(i as int)),
        decreases lines.len() - i,
    {
        let l = &lines[i];
        push_diff_line(&mut out, l.origin, l.old_lineno, l.content.as_str());
        i = i + 1;
        assert(lines@.take(i as int).drop_last() =~= lines@.take(i - 1 as int));
    }
    assert(lines@.take(lines.len() as int) =~= lines@);
    string_from_chars(&out)
}

} // verus!
