//! Character-level text model: lines, whitespace, and the blank-line cleaner.

use vstd::prelude::*;

verus! {

/// Whitespace as `char::is_whitespace` defines it (the Unicode White_Space property).
pub open spec fn is_ws(c: char) -> bool {
    let u = c as u32;
    (9 <= u && u <= 13) || u == 32 || u == 0x85 || u == 0xa0 || u == 0x1680 || (0x2000 <= u
        && u <= 0x200a) || u == 0x2028 || u == 0x2029 || u == 0x202f || u == 0x205f || u == 0x3000
}

/// A line is blank when every character in it is whitespace (the empty line included).
pub open spec fn is_blank(line: Seq<char>) -> bool {
    forall|i: int| 0 <= i < line.len() ==> is_ws(#[trigger] line[i])
}

/// The pieces of `s` between newline characters; there is always at least one.
pub open spec fn split_nl(s: Seq<char>) -> Seq<Seq<char>>
    decreases s.len(),
{
    if s.len() == 0 {
        seq![Seq::<char>::empty()]
    } else {
        let p = split_nl(s.drop_last());
        if s.last() == '\n' {
            p.push(Seq::<char>::empty())
        } else {
            p.update(p.len() - 1, p.last().push(s.last()))
        }
    }
}

/// Drops one trailing carriage return (the `\r` of a `\r\n` line ending).
pub open spec fn strip_cr(line: Seq<char>) -> Seq<char> {
    if line.len() > 0 && line.last() == '\r' {
        line.drop_last()
    } else {
        line
    }
}

/// The lines of `s` as `str::lines` yields them: a newline-terminated piece loses a
/// trailing `\r`, and a final piece is a line only when it is not empty.
pub open spec fn lines_of(s: Seq<char>) -> Seq<Seq<char>> {
    let p = split_nl(s);
    p.drop_last().map_values(|l: Seq<char>| strip_cr(l)) + if p.last().len() > 0 {
        seq![p.last()]
    } else {
        Seq::<Seq<char>>::empty()
    }
}

/// The non-blank lines of `ls`, in their order.
pub open spec fn keep_nonblank(ls: Seq<Seq<char>>) -> Seq<Seq<char>>
    decreases ls.len(),
{
    if ls.len() == 0 {
        ls
    } else {
        let k = keep_nonblank(ls.drop_last());
        if is_blank(ls.last()) {
            k
        } else {
            k.push(ls.last())
        }
    }
}

/// The lines of `ls` joined with a newline between neighbours.
pub open spec fn join_lines(ls: Seq<Seq<char>>) -> Seq<char>
    decreases ls.len(),
{
    if ls.len() == 0 {
        Seq::<char>::empty()
    } else if ls.len() == 1 {
        ls[0]
    } else {
        join_lines(ls.drop_last()) + seq!['\n'] + ls.last()
    }
}

/// The text with its blank lines removed: the remaining lines, unchanged and in order,
/// joined by single newlines.
pub open spec fn cleaned(s: Seq<char>) -> Seq<char> {
    join_lines(keep_nonblank(lines_of(s)))
}

/// Relies on `str::chars`: the characters of the string, in order.
#[verifier::external_body]
pub(crate) fn chars_of(s: &str) -> (r: Vec<char>)
    ensures
        r@ == s@,
{
    s.chars().collect()
}

/// Relies on `String: FromIterator<char>`: the string made of these characters.
#[verifier::external_body]
pub(crate) fn string_from_chars(v: &Vec<char>) -> (r: String)
    ensures
        r@ == v@,
{
    v.iter().collect()
}

/// Whether `c` is whitespace.
pub fn is_whitespace(c: char) -> (r: bool)
    ensures
        r == is_ws(c),
{
    let u = c as u32;
    (9 <= u && u <= 13) || u == 32 || u == 0x85 || u == 0xa0 || u == 0x1680 || (0x2000 <= u
        && u <= 0x200a) || u == 0x2028 || u == 0x2029 || u == 0x202f || u == 0x205f || u == 0x3000
}

/// Whether every character of `line` is whitespace.
pub fn line_is_blank(line: &Vec<char>) -> (r: bool)
    ensures
        r == is_blank(line@),
{
    let mut i: usize = 0;
    while i < line.len()
        invariant
            i <= line.len(),
            forall|j: int| 0 <= j < i ==> is_ws(#[trigger] line@[j]),
        decreases line.len() - i,
    {
        if !is_whitespace(line[i]) {
            return false;
        }
        i = i + 1;
    }
    true
}

/// Appends the characters of `src` to `out`.
pub fn append_chars(out: &mut Vec<char>, src: &Vec<char>)
    ensures
        final(out)@ == old(out)@ + src@,
{
    let mut i: usize = 0;
    while i < src.len()
        invariant
            i <= src.len(),
            out@ == old(out)@ + src@.take(i as int),
        decreases src.len() - i,
    {
        out.push(src[i]);
        i = i + 1;
        assert(src@.take(i as int) =~= src@.take(i - 1 as int).push(src@[i - 1]));
    }
    assert(src@.take(src.len() as int) =~= src@);
}

proof fn lemma_split_nl_len(s: Seq<char>)
    ensures
        split_nl(s).len() >= 1,
    decreases s.len(),
{
    if s.len() > 0 {
        lemma_split_nl_len(s.drop_last());
    }
}

/// Adding one line to `ls` adds it to the joined text after a newline.
proof fn lemma_join_push(ls: Seq<Seq<char>>, x: Seq<char>)
    ensures
        join_lines(ls.push(x)) == if ls.len() == 0 {
            x
        } else {
            join_lines(ls) + seq!['\n'] + x
        },
{
    assert(ls.push(x).drop_last() =~= ls);
}

proof fn lemma_keep_push(ls: Seq<Seq<char>>, x: Seq<char>)
    ensures
        keep_nonblank(ls.push(x)) == if is_blank(x) {
            keep_nonblank(ls)
        } else {
            keep_nonblank(ls).push(x)
        },
{
    assert(ls.push(x).drop_last() =~= ls);
}

/// Pieces of `s` never hold a newline.
pub proof fn lemma_split_nl_no_newline(s: Seq<char>)
    ensures
        forall|i: int, j: int|
            0 <= i < split_nl(s).len() && 0 <= j < split_nl(s)[i].len() ==> #[trigger] split_nl(
                s,
            )[i][j] != '\n',
    decreases s.len(),
{
    lemma_split_nl_len(s);
    if s.len() > 0 {
        lemma_split_nl_no_newline(s.drop_last());
        lemma_split_nl_len(s.drop_last());
        let p = split_nl(s.drop_last());
        if s.last() != '\n' {
            assert forall|i: int, j: int|
                0 <= i < split_nl(s).len() && 0 <= j < split_nl(s)[i].len() implies #[trigger] split_nl(
                s,
            )[i][j] != '\n' by {
                if i == p.len() - 1 && j == p.last().len() {
                } else {
                    assert(split_nl(s)[i][j] == p[i][j]);
                }
            }
        }
    }
}

/// Text without a newline is a single piece.
pub proof fn lemma_split_nl_single(s: Seq<char>)
    requires
        forall|j: int| 0 <= j < s.len() ==> s[j] != '\n',
    ensures
        split_nl(s) == seq![s],
    decreases s.len(),
{
    if s.len() > 0 {
        lemma_split_nl_single(s.drop_last());
        assert(s.drop_last().push(s.last()) =~= s);
        assert(split_nl(s) =~= seq![s]);
    } else {
        assert(s =~= Seq::<char>::empty());
    }
}

/// Splitting text made of two parts around a newline splits each part.
pub proof fn lemma_split_nl_concat(a: Seq<char>, b: Seq<char>)
    ensures
        split_nl(a + seq!['\n'] + b) == split_nl(a) + split_nl(b),
    decreases b.len(),
{
    let t = a + seq!['\n'] + b;
    lemma_split_nl_len(a);
    if b.len() == 0 {
        assert(t.drop_last() =~= a);
        assert(split_nl(a) + split_nl(b) =~= split_nl(a).push(Seq::<char>::empty()));
    } else {
        lemma_split_nl_concat(a, b.drop_last());
        lemma_split_nl_len(b.drop_last());
        assert(t.drop_last() =~= a + seq!['\n'] + b.drop_last());
        let u = split_nl(b.drop_last());
        if b.last() == '\n' {
            assert(split_nl(a) + split_nl(b) =~= (split_nl(a) + u).push(Seq::<char>::empty()));
        } else {
            let q = split_nl(a) + u;
            assert(split_nl(a) + split_nl(b) =~= q.update(q.len() - 1, q.last().push(b.last())));
        }
    }
}

/// The joined lines split back into the same lines when none holds a newline.
pub proof fn lemma_split_join(k: Seq<Seq<char>>)
    requires
        k.len() >= 1,
        forall|i: int, j: int| 0 <= i < k.len() && 0 <= j < k[i].len() ==> #[trigger] k[i][j] != '\n',
    ensures
        split_nl(join_lines(k)) == k,
    decreases k.len(),
{
    if k.len() == 1 {
        assert(forall|j: int| 0 <= j < k[0].len() ==> k[0][j] != '\n');
        lemma_split_nl_single(k[0]);
        assert(k =~= seq![k[0]]);
    } else {
        let k0 = k.drop_last();
        lemma_split_join(k0);
        assert(forall|j: int| 0 <= j < k.last().len() ==> k.last()[j] != '\n');
        lemma_split_nl_single(k.last());
        lemma_split_nl_concat(join_lines(k0), k.last());
        assert(k0 + seq![k.last()] =~= k);
    }
}

proof fn lemma_keep_props(ls: Seq<Seq<char>>)
    requires
        forall|i: int, j: int| 0 <= i < ls.len() && 0 <= j < ls[i].len() ==> #[trigger] ls[i][j] != '\n',
    ensures
        forall|i: int| 0 <= i < keep_nonblank(ls).len() ==> !is_blank(#[trigger] keep_nonblank(ls)[i]),
        forall|i: int, j: int|
            0 <= i < keep_nonblank(ls).len() && 0 <= j < keep_nonblank(ls)[i].len()
                ==> #[trigger] keep_nonblank(ls)[i][j] != '\n',
    decreases ls.len(),
{
    if ls.len() > 0 {
        let l0 = ls.drop_last();
        assert forall|i: int, j: int| 0 <= i < l0.len() && 0 <= j < l0[i].len() implies #[trigger] l0[i][j] != '\n' by {
            assert(l0[i] == ls[i]);
        }
        lemma_keep_props(l0);
        let k0 = keep_nonblank(l0);
        let x = ls.last();
        assert(forall|j: int| 0 <= j < x.len() ==> #[trigger] ls[ls.len() - 1][j] != '\n');
        if !is_blank(x) {
            assert forall|i: int| 0 <= i < keep_nonblank(ls).len() implies !is_blank(
                #[trigger] keep_nonblank(ls)[i],
            ) by {
                if i < k0.len() {
                    assert(keep_nonblank(ls)[i] == k0[i]);
                }
            }
            assert forall|i: int, j: int|
                0 <= i < keep_nonblank(ls).len() && 0 <= j < keep_nonblank(ls)[i].len()
                    implies #[trigger] keep_nonblank(ls)[i][j] != '\n' by {
                if i < k0.len() {
                    assert(keep_nonblank(ls)[i] == k0[i]);
                } else {
                    assert(keep_nonblank(ls)[i] == x);
                }
            }
        }
    }
}

proof fn lemma_keep_all_nonblank(ls: Seq<Seq<char>>)
    requires
        forall|i: int| 0 <= i < ls.len() ==> !is_blank(#[trigger] ls[i]),
    ensures
        keep_nonblank(ls) == ls,
    decreases ls.len(),
{
    if ls.len() > 0 {
        lemma_keep_all_nonblank(ls.drop_last());
        assert(ls.drop_last().push(ls.last()) =~= ls);
    }
}

proof fn lemma_lines_no_newline(s: Seq<char>)
    ensures
        forall|i: int, j: int|
            0 <= i < lines_of(s).len() && 0 <= j < lines_of(s)[i].len() ==> #[trigger] lines_of(
                s,
            )[i][j] != '\n',
{
    let p = split_nl(s);
    lemma_split_nl_len(s);
    lemma_split_nl_no_newline(s);
    assert forall|i: int, j: int|
        0 <= i < lines_of(s).len() && 0 <= j < lines_of(s)[i].len() implies #[trigger] lines_of(
        s,
    )[i][j] != '\n' by {
        if i < p.len() - 1 {
            assert(lines_of(s)[i] == strip_cr(p[i]));
            assert(lines_of(s)[i][j] == p[i][j]);
        } else {
            assert(lines_of(s)[i] == p[p.len() - 1]);
        }
    }
}

/// Whether, among the non-blank lines of `s`, every one but the last is free of a
/// trailing carriage return.
pub open spec fn kept_lines_end_clean(s: Seq<char>) -> bool {
    let k = keep_nonblank(lines_of(s));
    forall|i: int| 0 <= i < k.len() - 1 ==> !(#[trigger] k[i].len() > 0 && k[i].last() == '\r')
}

/// The lines of the cleaned text are exactly the non-blank lines of the input, in
/// order, provided no kept line but the last ends in a carriage return (which the
/// joined text would turn into a line ending).
pub proof fn lemma_cleaned_lines(s: Seq<char>)
    requires
        kept_lines_end_clean(s),
    ensures
        lines_of(cleaned(s)) == keep_nonblank(lines_of(s)),
        forall|i: int| 0 <= i < lines_of(cleaned(s)).len() ==> !is_blank(#[trigger] lines_of(cleaned(s))[i]),
{
    let k = keep_nonblank(lines_of(s));
    lemma_lines_no_newline(s);
    lemma_keep_props(lines_of(s));
    if k.len() == 0 {
        assert(lines_of(cleaned(s)) =~= k);
    } else {
        lemma_split_join(k);
        assert(lines_of(cleaned(s)) =~= k) by {
            assert(k.last().len() > 0);
            assert forall|i: int| 0 <= i < k.len() - 1 implies strip_cr(#[trigger] k[i]) == k[i] by {
                assert(!(k[i].len() > 0 && k[i].last() == '\r'));
            }
        }
    }
}

/// Cleaning twice gives what cleaning once gives, provided no kept line but the last
/// ends in a carriage return.
pub proof fn lemma_clean_idempotent(s: Seq<char>)
    requires
        kept_lines_end_clean(s),
    ensures
        cleaned(cleaned(s)) == cleaned(s),
{
    lemma_cleaned_lines(s);
    lemma_keep_all_nonblank(lines_of(cleaned(s)));
}

/// Removes the blank lines of `input`; every other line is kept as it is, in order.
pub fn remove_blank_lines(input: &String) -> (r: String)
    ensures
        r@ == cleaned(input@),
{
    let cs = chars_of(input.as_str());
    let mut out: Vec<char> = Vec::new();
    let mut cur: Vec<char> = Vec::new();
    let ghost mut kept: Seq<Seq<char>> = Seq::empty();
    let mut any: bool = false;
    let mut i: usize = 0;
    while i < cs.len()
        invariant
            cs@ == input@,
            i <= cs.len(),
            split_nl(cs@.take(i as int)).len() >= 1,
            cur@ == split_nl(cs@.take(i as int)).last(),
            kept == keep_nonblank(
                split_nl(cs@.take(i as int)).drop_last().map_values(|l: Seq<char>| strip_cr(l)),
            ),
            out@ == join_lines(kept),
            any == (kept.len() > 0),
        decreases cs.len() - i,
    {
        let ghost pre = cs@.take(i as int);
        let ghost post = cs@.take(i + 1 as int);
        assert(post.drop_last() =~= pre);
        let c = cs[i];
        if c == '\n' {
            let ghost line0 = cur@;
            if cur.len() > 0 && cur[cur.len() - 1] == '\r' {
                cur.pop();
            }
            assert(cur@ == strip_cr(line0));
            assert(split_nl(post).drop_last() =~= split_nl(pre));
            assert(split_nl(pre) =~= split_nl(pre).drop_last().push(line0));
            assert(split_nl(post).drop_last().map_values(|l: Seq<char>| strip_cr(l))
                =~= split_nl(pre).drop_last().map_values(|l: Seq<char>| strip_cr(l)).push(
                strip_cr(line0),
            ));
            proof {
                lemma_keep_push(
                    split_nl(pre).drop_last().map_values(|l: Seq<char>| strip_cr(l)),
                    strip_cr(line0),
                );
                lemma_join_push(kept, cur@);
            }
            if !line_is_blank(&cur) {
                if any {
                    out.push('\n');
                }
                append_chars(&mut out, &cur);
                proof {
                    kept = kept.push(cur@);
                }
                any = true;
            }
            cur = Vec::new();
        } else {
            cur.push(c);
            assert(split_nl(post).drop_last() =~= split_nl(pre).drop_last());
        }
        i = i + 1;
    }
    assert(cs@.take(cs.len() as int) =~= cs@);
    proof {
        let p = split_nl(cs@);
        let m = p.drop_last().map_values(|l: Seq<char>| strip_cr(l));
        lemma_keep_push(m, p.last());
        lemma_join_push(kept, cur@);
        if p.last().len() == 0 {
            assert(lines_of(cs@) =~= m);
        } else {
            assert(lines_of(cs@) =~= m.push(p.last()));
        }
    }
    if !line_is_blank(&cur) {
        if any {
            out.push('\n');
        }
        append_chars(&mut out, &cur);
    }
    string_from_chars(&out)
}

} // verus!
