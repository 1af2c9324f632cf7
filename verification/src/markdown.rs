//! Markdown documents as lists of lines: building the lines, and joining
//! them into one text.
use vstd::prelude::*;

use crate::i18n::views;
use crate::text::{append_str, lemma_find_single, split_on, string_from};

verus! {

/// The lines joined into one text, a `'\n'` between each two.
pub open spec fn joined(ls: Seq<Seq<char>>) -> Seq<char>
    decreases ls.len(),
{
    if ls.len() == 0 {
        seq![]
    } else if ls.len() == 1 {
        ls[0]
    } else {
        joined(ls.drop_last()) + seq!['\n'] + ls.last()
    }
}

/// Joins the lines with `'\n'` (`[String]::join("\n")`).
pub fn join_lines(ls: &Vec<String>) -> (r: String)
    ensures
        r@ == joined(views(ls@)),
{
    let mut out: Vec<char> = Vec::new();
    let mut i: usize = 0;
    while i < ls.len()
        invariant
            i <= ls@.len(),
            out@ == joined(views(ls@.take(i as int))),
        decreases ls@.len() - i,
    {
        let ghost before = out@;
        if i > 0 {
            out.push('\n');
        }
        append_str(&mut out, ls[i].as_str());
        proof {
            let t = views(ls@.take(i + 1));
            assert(t.drop_last() =~= views(ls@.take(i as int)));
            assert(t.last() == ls@[i as int]@);
            if i == 0 {
                assert(t =~= seq![ls@[0]@]);
            }
        }
        i = i + 1;
    }
    assert(ls@.take(ls@.len() as int) == ls@);
    string_from(out.as_slice())
}

/// Appends one line.
pub fn push_line(md: &mut Vec<String>, line: String)
    ensures
        views(final(md)@) == views(old(md)@).push(line@),
{
    let ghost before = md@;
    let ghost l = line@;
    md.push(line);
    assert(views(md@) =~= views(before).push(l));
}

/// Appends the lines of `more`.
pub fn push_lines(md: &mut Vec<String>, more: Vec<String>)
    ensures
        views(final(md)@) == views(old(md)@) + views(more@),
{
    let ghost before = md@;
    let ghost added = more@;
    let mut more = more;
    md.append(&mut more);
    assert(views(md@) =~= views(before) + views(added));
}

/// `"**label**: value"`.
pub open spec fn bold_kv(label: Seq<char>, value: Seq<char>) -> Seq<char> {
    "**"@ + label + "**: "@ + value
}

/// The line `"**label**: value"`.
pub fn bold_kv_line(label: &str, value: &str) -> (r: String)
    ensures
        r@ == bold_kv(label@, value@),
{
    let mut v: Vec<char> = Vec::new();
    append_str(&mut v, "**");
    append_str(&mut v, label);
    append_str(&mut v, "**: ");
    append_str(&mut v, value);
    string_from(v.as_slice())
}

/// The text `a` followed by `b`.
pub fn cat2(a: &str, b: &str) -> (r: String)
    ensures
        r@ == a@ + b@,
{
    let mut v: Vec<char> = Vec::new();
    append_str(&mut v, a);
    append_str(&mut v, b);
    string_from(v.as_slice())
}

/// The text `a`, `b`, `c` in a row.
pub fn cat3(a: &str, b: &str, c: &str) -> (r: String)
    ensures
        r@ == a@ + b@ + c@,
{
    let mut v: Vec<char> = Vec::new();
    append_str(&mut v, a);
    append_str(&mut v, b);
    append_str(&mut v, c);
    string_from(v.as_slice())
}

/// The text `a`, `b`, `c`, `d`, `e` in a row.
pub fn cat5(a: &str, b: &str, c: &str, d: &str, e: &str) -> (r: String)
    ensures
        r@ == a@ + b@ + c@ + d@ + e@,
{
    let mut v: Vec<char> = Vec::new();
    append_str(&mut v, a);
    append_str(&mut v, b);
    append_str(&mut v, c);
    append_str(&mut v, d);
    append_str(&mut v, e);
    string_from(v.as_slice())
}

/// The text `a` to `g` in a row.
pub fn cat7(a: &str, b: &str, c: &str, d: &str, e: &str, f: &str, g: &str) -> (r: String)
    ensures
        r@ == a@ + b@ + c@ + d@ + e@ + f@ + g@,
{
    let mut v: Vec<char> = Vec::new();
    append_str(&mut v, a);
    append_str(&mut v, b);
    append_str(&mut v, c);
    append_str(&mut v, d);
    append_str(&mut v, e);
    append_str(&mut v, f);
    append_str(&mut v, g);
    string_from(v.as_slice())
}

/// The texts joined into one, `sep` between each two (`[String]::join`).
pub open spec fn joined_with(ls: Seq<Seq<char>>, sep: Seq<char>) -> Seq<char>
    decreases ls.len(),
{
    if ls.len() == 0 {
        seq![]
    } else if ls.len() == 1 {
        ls[0]
    } else {
        joined_with(ls.drop_last(), sep) + sep + ls.last()
    }
}

/// Joins the texts with `sep` between each two.
pub fn join_with(ls: &Vec<String>, sep: &str) -> (r: String)
    ensures
        r@ == joined_with(views(ls@), sep@),
{
    let mut out: Vec<char> = Vec::new();
    let mut i: usize = 0;
    while i < ls.len()
        invariant
            i <= ls@.len(),
            out@ == joined_with(views(ls@.take(i as int)), sep@),
        decreases ls@.len() - i,
    {
        if i > 0 {
            append_str(&mut out, sep);
        }
        append_str(&mut out, ls[i].as_str());
        proof {
            let t = views(ls@.take(i + 1));
            assert(t.drop_last() =~= views(ls@.take(i as int)));
            assert(t.last() == ls@[i as int]@);
            if i == 0 {
                assert(t =~= seq![ls@[0]@]);
            }
        }
        i = i + 1;
    }
    assert(ls@.take(ls@.len() as int) == ls@);
    string_from(out.as_slice())
}

/// Splitting at a separator that the appended part does not hold: the parts
/// of the front, then the appended part.
proof fn lemma_split_append(a: Seq<char>, x: Seq<char>, c: char)
    requires
        !x.contains(c),
    ensures
        split_on(a + seq![c] + x, c) == split_on(a, c).push(x),
    decreases a.len(),
{
    let s = a + seq![c] + x;
    let n = a.len() as int;
    lemma_find_single(x, c, 0, x.len() as int);
    assert(split_on(x, c) == seq![x]);
    if a.contains(c) {
        let k0 = choose|j: int| 0 <= j < a.len() && a[j] == c;
        let k = choose|j: int|
            0 <= j < a.len() && a[j] == c && forall|i: int| 0 <= i < j ==> a[i] != c;
        assert(exists|j: int| 0 <= j < a.len() && a[j] == c && forall|i: int| 0 <= i < j ==> a[i] != c)
            by {
            lemma_first_index(a, c, k0);
        }
        lemma_find_single(a, c, 0, k);
        lemma_find_single(s, c, 0, k);
        let a2 = a.subrange(k + 1, n);
        assert(s.subrange(0, k) == a.subrange(0, k));
        assert(s.subrange(k + 1, s.len() as int) == a2 + seq![c] + x);
        lemma_split_append(a2, x, c);
        assert(split_on(a, c) == seq![a.subrange(0, k)] + split_on(a2, c));
        assert(split_on(s, c) == seq![a.subrange(0, k)] + split_on(a2 + seq![c] + x, c));
    } else {
        assert forall|j: int| 0 <= j < n implies s[j] != c by {
            assert(s[j] == a[j]);
        }
        lemma_find_single(a, c, 0, n);
        lemma_find_single(s, c, 0, n);
        assert(s.subrange(0, n) == a);
        assert(s.subrange(n + 1, s.len() as int) == x);
    }
}

/// A sequence holding `c` holds it at a first index.
proof fn lemma_first_index(a: Seq<char>, c: char, k: int)
    requires
        0 <= k < a.len(),
        a[k] == c,
    ensures
        exists|j: int| 0 <= j < a.len() && a[j] == c && forall|i: int| 0 <= i < j ==> a[i] != c,
    decreases k,
{
    if exists|i: int| 0 <= i < k && a[i] == c {
        let i = choose|i: int| 0 <= i < k && a[i] == c;
        lemma_first_index(a, c, i);
    }
}

/// A text of lines that hold no line break, split at its line breaks, gives
/// the lines back: line `k` of the joined text is `ls[k]`.
pub proof fn lemma_split_joined(ls: Seq<Seq<char>>)
    requires
        ls.len() > 0,
        forall|i: int| 0 <= i < ls.len() ==> !(#[trigger] ls[i]).contains('\n'),
    ensures
        split_on(joined(ls), '\n') == ls,
    decreases ls.len(),
{
    if ls.len() == 1 {
        lemma_find_single(ls[0], '\n', 0, ls[0].len() as int);
        assert(split_on(ls[0], '\n') == seq![ls[0]]);
        assert(ls == seq![ls[0]]);
    } else {
        let front = ls.drop_last();
        assert forall|i: int| 0 <= i < front.len() implies !(#[trigger] front[i]).contains('\n') by {
            assert(front[i] == ls[i]);
        }
        lemma_split_joined(front);
        assert(!ls.last().contains('\n'));
        lemma_split_append(joined(front), ls.last(), '\n');
        assert(front.push(ls.last()) == ls);
    }
}

} // verus!
