//! Character-level operations on text, each with its meaning as a spec function.
use vstd::prelude::*;
use vstd::string::*;

verus! {

/// The text before the first `c` and the text after it, if `c` occurs.
pub open spec fn split_once(s: Seq<char>, c: char) -> Option<(Seq<char>, Seq<char>)>
    decreases s.len(),
{
    if s.len() == 0 {
        None
    } else if s[0] == c {
        Some((Seq::empty(), s.skip(1)))
    } else {
        match split_once(s.skip(1), c) {
            Some(p) => Some((seq![s[0]] + p.0, p.1)),
            None => None,
        }
    }
}

/// The one line of a command's output: the output must be non-empty and hold
/// no line break but an optional final one, which is dropped together with a
/// carriage return before it.
pub open spec fn single_line(out: Seq<char>) -> Option<Seq<char>> {
    if out.len() == 0 {
        None
    } else {
        let ends_nl = out.last() == '\n';
        let body = if ends_nl { out.drop_last() } else { out };
        if body.contains('\n') {
            None
        } else if ends_nl && body.len() > 0 && body.last() == '\r' {
            Some(body.drop_last())
        } else {
            Some(body)
        }
    }
}

pub proof fn lemma_split_once_at(s: Seq<char>, c: char, i: int)
    requires
        0 <= i < s.len(),
        s[i] == c,
        forall|j: int| 0 <= j < i ==> s[j] != c,
    ensures
        split_once(s, c) == Some((s.take(i), s.skip(i + 1))),
    decreases i,
{
    if i > 0 {
        lemma_split_once_at(s.skip(1), c, i - 1);
        assert(seq![s[0]] + s.skip(1).take(i - 1) =~= s.take(i));
        assert(s.skip(1).skip(i) =~= s.skip(i + 1));
    } else {
        assert(s.take(0) =~= Seq::<char>::empty());
    }
}

pub proof fn lemma_split_once_none(s: Seq<char>, c: char)
    requires
        !s.contains(c),
    ensures
        split_once(s, c) is None,
    decreases s.len(),
{
    if s.len() > 0 {
        assert(s[0] != c);
        assert forall|j: int| 0 <= j < s.skip(1).len() implies s.skip(1)[j] != c by {
            assert(s[j + 1] != c);
        }
        lemma_split_once_none(s.skip(1), c);
    }
}

/// Splitting `k`, `c`, `v` at the first `c` gives back `k` and `v` when `k` holds no `c`.
pub proof fn lemma_split_once_joined(k: Seq<char>, c: char, v: Seq<char>)
    requires
        !k.contains(c),
    ensures
        split_once(k + seq![c] + v, c) == Some((k, v)),
{
    let s = k + seq![c] + v;
    assert forall|j: int| 0 <= j < k.len() implies s[j] != c by {
        assert(s[j] == k[j]);
    }
    lemma_split_once_at(s, c, k.len() as int);
    assert(s.take(k.len() as int) =~= k);
    assert(s.skip(k.len() as int + 1) =~= v);
}

/// Copies a part of `s` into a new string.
fn substring(s: &str, from: usize, to: usize) -> (r: String)
    requires
        from <= to <= s@.len(),
    ensures
        r@ == s@.subrange(from as int, to as int),
{
    String::from_str(s.substring_char(from, to))
}

/// Splits `s` at the first `c`.
pub fn split_once_char(s: &str, c: char) -> (r: Option<(String, String)>)
    ensures
        match r {
            Some(p) => split_once(s@, c) == Some((p.0@, p.1@)),
            None => split_once(s@, c) is None,
        },
{
    let n = s.unicode_len();
    let mut i: usize = 0;
    while i < n
        invariant
            n == s@.len(),
            i <= n,
            forall|j: int| 0 <= j < i ==> s@[j] != c,
        decreases n - i,
    {
        if s.get_char(i) == c {
            proof {
                lemma_split_once_at(s@, c, i as int);
            }
            let before = substring(s, 0, i);
            let after = substring(s, i + 1, n);
            proof {
                assert(s@.take(i as int) =~= before@);
                assert(s@.skip(i + 1) =~= after@);
            }
            return Some((before, after));
        }
        i = i + 1;
    }
    proof {
        lemma_split_once_none(s@, c);
    }
    None
}

/// Whether `s` begins with `p`.
pub fn starts_with(s: &str, p: &str) -> (r: bool)
    ensures
        r == p@.is_prefix_of(s@),
{
    let n = s.unicode_len();
    let m = p.unicode_len();
    if m > n {
        return false;
    }
    let head = substring(s, 0, m);
    let whole = String::from_str(p);
    let r = head == whole;
    proof {
        if !r {
            assert(head@ != p@);
        }
    }
    r
}

/// The one line of a command's output, or `None` where the output is empty or
/// has more than one line.
pub fn output_line(out: &str) -> (r: Option<String>)
    ensures
        match r {
            Some(l) => single_line(out@) == Some(l@),
            None => single_line(out@) is None,
        },
{
    let n = out.unicode_len();
    if n == 0 {
        return None;
    }
    let ends_nl = out.get_char(n - 1) == '\n';
    let body_end: usize = if ends_nl { n - 1 } else { n };
    let ghost body = out@.subrange(0, body_end as int);
    proof {
        if ends_nl {
            assert(body =~= out@.drop_last());
        } else {
            assert(body =~= out@);
        }
    }
    let mut i: usize = 0;
    while i < body_end
        invariant
            n == out@.len(),
            body_end <= n,
            i <= body_end,
            body == out@.subrange(0, body_end as int),
            ends_nl == (out@.last() == '\n'),
            body == (if ends_nl { out@.drop_last() } else { out@ }),
            forall|j: int| 0 <= j < i ==> body[j] != '\n',
        decreases body_end - i,
    {
        if out.get_char(i) == '\n' {
            proof {
                assert(body[i as int] == '\n');
                assert(body.contains('\n'));
            }
            return None;
        }
        i = i + 1;
    }
    let end: usize = if ends_nl && body_end > 0 && out.get_char(body_end - 1) == '\r' {
        body_end - 1
    } else {
        body_end
    };
    let line = substring(out, 0, end);
    proof {
        if end < body_end {
            assert(line@ =~= body.drop_last());
        } else {
            assert(line@ =~= body);
        }
    }
    Some(line)
}

/// `s` with every occurrence of `pat` taken out, matched left to right
/// without overlap.
pub open spec fn remove_all(s: Seq<char>, pat: Seq<char>) -> Seq<char>
    decreases s.len(),
{
    if pat.len() == 0 || s.len() < pat.len() {
        s
    } else if s.take(pat.len() as int) == pat {
        remove_all(s.skip(pat.len() as int), pat)
    } else {
        seq![s[0]] + remove_all(s.skip(1), pat)
    }
}

/// The items joined with a comma between each two.
pub open spec fn join_comma(items: Seq<Seq<char>>) -> Seq<char>
    decreases items.len(),
{
    if items.len() == 0 {
        Seq::empty()
    } else if items.len() == 1 {
        items[0]
    } else {
        join_comma(items.drop_last()) + seq![','] + items.last()
    }
}

/// `base` followed by `rel` as a path: an absolute `rel` replaces `base`, and
/// a separator is put between the two where `base` is non-empty and does not
/// end with one.
pub open spec fn path_join(base: Seq<char>, rel: Seq<char>) -> Seq<char> {
    if rel.len() > 0 && rel[0] == '/' {
        rel
    } else if base.len() == 0 || base.last() == '/' {
        base + rel
    } else {
        base + seq!['/'] + rel
    }
}

/// Takes every occurrence of `pat` out of `s`.
pub fn remove_all_of(s: &str, pat: &str) -> (r: String)
    ensures
        r@ == remove_all(s@, pat@),
{
    let n = s.unicode_len();
    let m = pat.unicode_len();
    if m == 0 {
        return String::from_str(s);
    }
    let whole = String::from_str(pat);
    let mut out = String::new();
    let mut i: usize = 0;
    assert(s@.skip(0) =~= s@);
    assert(out@ + remove_all(s@, pat@) =~= remove_all(s@, pat@));
    while i < n
        invariant
            n == s@.len(),
            m == pat@.len(),
            m > 0,
            whole@ == pat@,
            i <= n,
            out@ + remove_all(s@.skip(i as int), pat@) == remove_all(s@, pat@),
        decreases n - i,
    {
        let ghost rest = s@.skip(i as int);
        if m <= n - i {
            let part = substring(s, i, i + m);
            assert(rest.take(m as int) =~= part@);
            if part == whole {
                assert(rest.skip(m as int) =~= s@.skip(i + m));
                i = i + m;
                continue;
            }
        }
        let c = s.substring_char(i, i + 1);
        let ghost out0 = out@;
        out.append(c);
        proof {
            assert(rest.skip(1) =~= s@.skip(i + 1));
            assert(c@ =~= seq![rest[0]]);
            if rest.len() < pat@.len() {
                assert(remove_all(rest.skip(1), pat@) == rest.skip(1));
                assert(rest =~= seq![rest[0]] + rest.skip(1));
            }
            assert(remove_all(rest, pat@) == seq![rest[0]] + remove_all(rest.skip(1), pat@));
            assert(out@ + remove_all(s@.skip(i + 1), pat@) =~= out0 + remove_all(rest, pat@));
        }
        i = i + 1;
    }
    assert(s@.skip(n as int) =~= Seq::<char>::empty());
    out
}

/// The views of a list of strings.
pub open spec fn views(items: Seq<String>) -> Seq<Seq<char>> {
    items.map_values(|t: String| t@)
}

/// Joins the items with a comma between each two.
pub fn join_with_comma(items: &Vec<String>) -> (r: String)
    ensures
        r@ == join_comma(views(items@)),
{
    let n = items.len();
    if n == 0 {
        return String::new();
    }
    let mut out = items[0].clone();
    assert(views(items@).take(1) =~= seq![items@[0]@]);
    let mut i: usize = 1;
    while i < n
        invariant
            n == items@.len(),
            1 <= i <= n,
            out@ == join_comma(views(items@).take(i as int)),
        decreases n - i,
    {
        let ghost prev = views(items@).take(i as int);
        out.append(",");
        out.append(items[i].as_str());
        proof {
            reveal_strlit(",");
            let next = views(items@).take(i + 1);
            assert(next.drop_last() =~= prev);
            assert(next.last() == items@[i as int]@);
        }
        i = i + 1;
    }
    assert(views(items@).take(n as int) =~= views(items@));
    out
}

/// Joins two paths as `path_join` says.
pub fn join_path(base: &str, rel: &str) -> (r: String)
    ensures
        r@ == path_join(base@, rel@),
{
    let rn = rel.unicode_len();
    if rn > 0 && rel.get_char(0) == '/' {
        return String::from_str(rel);
    }
    let bn = base.unicode_len();
    let mut out = String::from_str(base);
    if bn > 0 && base.get_char(bn - 1) != '/' {
        out.append("/");
        proof {
            reveal_strlit("/");
        }
    }
    out.append(rel);
    out
}

} // verus!
