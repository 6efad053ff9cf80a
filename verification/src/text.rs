//! Line and substring machinery shared by the stderr filter and the
//! diagnostic filter: splitting text on newlines, joining it back, and
//! substring search, all specified over `Seq<char>`.

use vstd::prelude::*;
use vstd::string::StrSliceExecFns;
use vstd::string::StringExecFns;

verus! {

/// Split `s` on `'\n'`. The result always has at least one segment, and the
/// separators are not part of any segment: joining the segments with `'\n'`
/// gives `s` back (`lemma_join_split`).
pub open spec fn split_on_nl(s: Seq<char>) -> Seq<Seq<char>>
    decreases s.len(),
{
    if s.len() == 0 {
        seq![Seq::<char>::empty()]
    } else if s[0] == '\n' {
        seq![Seq::<char>::empty()] + split_on_nl(s.drop_first())
    } else {
        let rest = split_on_nl(s.drop_first());
        seq![seq![s[0]] + rest[0]] + rest.drop_first()
    }
}

/// Concatenation of `ls` with `sep` between consecutive elements.
pub open spec fn join_with(ls: Seq<Seq<char>>, sep: Seq<char>) -> Seq<char>
    decreases ls.len(),
{
    if ls.len() == 0 {
        Seq::empty()
    } else if ls.len() == 1 {
        ls[0]
    } else {
        ls[0] + sep + join_with(ls.drop_first(), sep)
    }
}

pub open spec fn join_with_nl(ls: Seq<Seq<char>>) -> Seq<char> {
    join_with(ls, seq!['\n'])
}

/// `p` occurs in `h` starting at index `i`.
pub open spec fn occurs_at(h: Seq<char>, p: Seq<char>, i: int) -> bool {
    0 <= i && i + p.len() <= h.len() && h.subrange(i, i + p.len()) == p
}

/// `p` occurs somewhere in `h`.
pub open spec fn occurs_in(h: Seq<char>, p: Seq<char>) -> bool {
    exists|i: int| occurs_at(h, p, i)
}

/// `l` contains no newline character.
pub open spec fn nl_free(l: Seq<char>) -> bool {
    forall|j: int| 0 <= j < l.len() ==> l[j] != '\n'
}

pub proof fn lemma_split_len(s: Seq<char>)
    ensures
        split_on_nl(s).len() >= 1,
    decreases s.len(),
{
    if s.len() == 0 {
    } else {
        lemma_split_len(s.drop_first());
    }
}

/// Splitting newline-free text yields that text as the only segment.
pub proof fn lemma_split_no_nl(s: Seq<char>)
    requires
        nl_free(s),
    ensures
        split_on_nl(s) == seq![s],
    decreases s.len(),
{
    if s.len() == 0 {
        assert(split_on_nl(s) =~~= seq![s]);
    } else {
        assert(nl_free(s.drop_first()));
        lemma_split_no_nl(s.drop_first());
        assert(seq![s[0]] + s.drop_first() =~= s);
        assert(split_on_nl(s) =~~= seq![s]);
    }
}

/// Peeling the first segment off a split: if the first newline of `s` stands
/// at `k`, the split is the text before `k` followed by the split of the text
/// after `k`.
pub proof fn lemma_split_peel(s: Seq<char>, k: int)
    requires
        0 <= k < s.len(),
        s[k] == '\n',
        forall|j: int| 0 <= j < k ==> s[j] != '\n',
    ensures
        split_on_nl(s) == seq![s.subrange(0, k)] + split_on_nl(s.subrange(k + 1, s.len() as int)),
    decreases k,
{
    if k == 0 {
        assert(s.subrange(0, 0) =~= Seq::<char>::empty());
        assert(s.subrange(1, s.len() as int) =~= s.drop_first());
    } else {
        let t = s.drop_first();
        lemma_split_peel(t, k - 1);
        lemma_split_len(t.subrange(k, t.len() as int));
        assert(t.subrange(k, t.len() as int) =~= s.subrange(k + 1, s.len() as int));
        assert(seq![s[0]] + t.subrange(0, k - 1) =~= s.subrange(0, k));
        assert(split_on_nl(s) =~~= seq![s.subrange(0, k)] + split_on_nl(
            s.subrange(k + 1, s.len() as int),
        ));
    }
}

/// Joining the split of `s` with newlines gives `s` back.
pub proof fn lemma_join_split(s: Seq<char>)
    ensures
        join_with_nl(split_on_nl(s)) == s,
    decreases s.len(),
{
    if s.len() == 0 {
    } else if s[0] == '\n' {
        let t = s.drop_first();
        lemma_join_split(t);
        lemma_split_len(t);
        let segs = split_on_nl(s);
        assert(segs.drop_first() =~= split_on_nl(t));
        assert(segs.len() >= 2);
        assert(join_with_nl(segs) =~= s);
    } else {
        let t = s.drop_first();
        lemma_join_split(t);
        let rest = split_on_nl(t);
        lemma_split_len(t);
        let segs = split_on_nl(s);
        assert(segs[0] == seq![s[0]] + rest[0]);
        if rest.len() == 1 {
            assert(segs.len() == 1);
            assert(join_with_nl(rest) == rest[0]);
            assert(join_with_nl(segs) =~= s);
        } else {
            assert(segs.drop_first() =~= rest.drop_first());
            assert(join_with_nl(rest) == rest[0] + seq!['\n'] + join_with_nl(rest.drop_first()));
            assert(join_with_nl(segs) == segs[0] + seq!['\n'] + join_with_nl(segs.drop_first()));
            assert(s =~= seq![s[0]] + t);
            assert((seq![s[0]] + rest[0]) + seq!['\n'] + join_with_nl(rest.drop_first()) =~= seq![
                s[0],
            ] + (rest[0] + seq!['\n'] + join_with_nl(rest.drop_first())));
            assert(join_with_nl(segs) =~= s);
        }
    }
}

/// Every segment of a split is newline-free.
pub proof fn lemma_split_segments_nl_free(s: Seq<char>)
    ensures
        forall|i: int|
            0 <= i < split_on_nl(s).len() ==> nl_free(#[trigger] split_on_nl(s)[i]),
    decreases s.len(),
{
    if s.len() == 0 {
    } else if s[0] == '\n' {
        lemma_split_segments_nl_free(s.drop_first());
        let rest = split_on_nl(s.drop_first());
        assert forall|i: int| 0 <= i < split_on_nl(s).len() implies nl_free(
            #[trigger] split_on_nl(s)[i],
        ) by {
            if i > 0 {
                assert(split_on_nl(s)[i] == rest[i - 1]);
            }
        }
    } else {
        lemma_split_segments_nl_free(s.drop_first());
        let rest = split_on_nl(s.drop_first());
        lemma_split_len(s.drop_first());
        assert forall|i: int| 0 <= i < split_on_nl(s).len() implies nl_free(
            #[trigger] split_on_nl(s)[i],
        ) by {
            if i == 0 {
                assert(nl_free(rest[0]));
                assert(split_on_nl(s)[0] == seq![s[0]] + rest[0]);
            } else {
                assert(split_on_nl(s)[i] == rest[i]);
            }
        }
    }
}

/// Splitting a join of nonempty, newline-free segments recovers the segments.
pub proof fn lemma_split_join(ls: Seq<Seq<char>>)
    requires
        ls.len() >= 1,
        forall|i: int| 0 <= i < ls.len() ==> nl_free(#[trigger] ls[i]),
    ensures
        split_on_nl(join_with_nl(ls)) == ls,
    decreases ls.len(),
{
    if ls.len() == 1 {
        lemma_split_no_nl(ls[0]);
        assert(split_on_nl(join_with_nl(ls)) =~~= ls);
    } else {
        let rest = ls.drop_first();
        lemma_split_join(rest);
        let s = join_with_nl(ls);
        let k = ls[0].len() as int;
        assert(s == ls[0] + seq!['\n'] + join_with_nl(rest));
        assert(s[k] == '\n');
        assert(forall|j: int| 0 <= j < k ==> s[j] == ls[0][j] && s[j] != '\n');
        lemma_split_peel(s, k);
        assert(s.subrange(0, k) =~= ls[0]);
        assert(s.subrange(k + 1, s.len() as int) =~= join_with_nl(rest));
        assert(split_on_nl(s) =~~= ls);
    }
}

/// Appending one element to a join appends a separator and the element.
pub proof fn lemma_join_push(ls: Seq<Seq<char>>, sep: Seq<char>, x: Seq<char>)
    ensures
        join_with(ls.push(x), sep) == if ls.len() == 0 {
            x
        } else {
            join_with(ls, sep) + sep + x
        },
    decreases ls.len(),
{
    if ls.len() == 0 {
        assert(ls.push(x)[0] == x);
    } else if ls.len() == 1 {
        assert(ls.push(x).drop_first() =~= seq![x]);
        assert(join_with(seq![x], sep) == x);
        assert(join_with(ls.push(x), sep) == ls[0] + sep + x);
    } else {
        lemma_join_push(ls.drop_first(), sep, x);
        assert(ls.push(x).drop_first() =~= ls.drop_first().push(x));
        assert(join_with(ls.push(x), sep) =~= join_with(ls, sep) + sep + x);
    }
}

/// Split a string slice into its newline-separated segments.
pub fn split_lines(s: &str) -> (lines: Vec<String>)
    ensures
        lines.deep_view() == split_on_nl(s@),
{
    let n: usize = s.unicode_len();
    let mut lines: Vec<String> = Vec::new();
    let mut start: usize = 0;
    let mut i: usize = 0;
    proof {
        assert(s@.subrange(0, n as int) =~= s@);
        assert(lines.deep_view() =~= Seq::<Seq<char>>::empty());
    }
    while i < n
        invariant
            0 <= start <= i <= n == s@.len(),
            forall|j: int| start <= j < i ==> s@[j] != '\n',
            split_on_nl(s@) == lines.deep_view() + split_on_nl(s@.subrange(start as int, n as int)),
        decreases n - i,
    {
        let c = s.get_char(i);
        if c == '\n' {
            let seg = String::from_str(s.substring_char(start, i));
            let ghost prev = lines.deep_view();
            lines.push(seg);
            proof {
                assert(lines.deep_view() =~= prev.push(seg@));
                let tail = s@.subrange(start as int, n as int);
                let k = (i - start) as int;
                assert(tail[k] == '\n');
                assert(forall|j: int| 0 <= j < k ==> tail[j] == s@[start + j]);
                lemma_split_peel(tail, k);
                assert(tail.subrange(0, k) =~= s@.subrange(start as int, i as int));
                assert(tail.subrange(k + 1, tail.len() as int) =~= s@.subrange(i + 1, n as int));
                assert(seg@ == s@.subrange(start as int, i as int));
                assert(prev + split_on_nl(tail) =~= prev.push(seg@) + split_on_nl(
                    s@.subrange(i + 1, n as int),
                ));
            }
            start = i + 1;
        }
        i = i + 1;
    }
    let seg = String::from_str(s.substring_char(start, n));
    let ghost prev = lines.deep_view();
    lines.push(seg);
    proof {
        assert(lines.deep_view() =~= prev.push(seg@));
        let tail = s@.subrange(start as int, n as int);
        assert(nl_free(tail));
        lemma_split_no_nl(tail);
        assert(tail =~= seg@);
        assert(prev + split_on_nl(tail) =~= prev.push(seg@));
    }
    lines
}

/// Whether `needle` occurs as a contiguous substring of `hay`.
pub fn str_contains(hay: &str, needle: &str) -> (b: bool)
    ensures
        b == occurs_in(hay@, needle@),
{
    let n: usize = hay.unicode_len();
    let m: usize = needle.unicode_len();
    if m == 0 {
        proof {
            assert(hay@.subrange(0, 0) =~= needle@);
            assert(occurs_at(hay@, needle@, 0));
        }
        return true;
    }
    if m > n {
        proof {
            assert(forall|i: int| !occurs_at(hay@, needle@, i));
        }
        return false;
    }
    let mut i: usize = 0;
    while i <= n - m
        invariant
            0 <= i <= n - m + 1,
            1 <= m <= n == hay@.len(),
            m == needle@.len(),
            forall|ii: int| 0 <= ii < i ==> !occurs_at(hay@, needle@, ii),
        decreases n - m - i + 1,
    {
        let mut j: usize = 0;
        let mut matches = true;
        while j < m
            invariant
                0 <= j <= m,
                i + m <= n == hay@.len(),
                m == needle@.len(),
                matches ==> forall|jj: int| 0 <= jj < j ==> hay@[i + jj] == needle@[jj],
                !matches ==> !occurs_at(hay@, needle@, i as int),
            decreases m - j,
        {
            if hay.get_char(i + j) != needle.get_char(j) {
                proof {
                    assert(hay@.subrange(i as int, i + m) == needle@ ==> hay@.subrange(
                        i as int,
                        i + m,
                    )[j as int] == needle@[j as int]);
                }
                matches = false;
                j = m;
            } else {
                j = j + 1;
            }
        }
        if matches {
            proof {
                assert(hay@.subrange(i as int, i + m) =~= needle@);
                assert(occurs_at(hay@, needle@, i as int));
            }
            return true;
        }
        i = i + 1;
    }
    proof {
        assert(forall|ii: int| occurs_at(hay@, needle@, ii) ==> 0 <= ii <= n - m);
    }
    false
}

/// Character-for-character equality of two string slices.
pub fn str_eq(a: &str, b: &str) -> (r: bool)
    ensures
        r == (a@ == b@),
{
    let n: usize = a.unicode_len();
    if n != b.unicode_len() {
        return false;
    }
    let mut i: usize = 0;
    while i < n
        invariant
            0 <= i <= n == a@.len(),
            n == b@.len(),
            forall|j: int| 0 <= j < i ==> a@[j] == b@[j],
        decreases n - i,
    {
        if a.get_char(i) != b.get_char(i) {
            return false;
        }
        i = i + 1;
    }
    proof {
        assert(a@ =~= b@);
    }
    true
}

/// Join the strings of `v` with the separator `sep` between consecutive
/// elements.
pub fn join_strings(v: &Vec<String>, sep: &str) -> (out: String)
    ensures
        out@ == join_with(v.deep_view(), sep@),
{
    let mut out = String::new();
    let mut i: usize = 0;
    while i < v.len()
        invariant
            0 <= i <= v.len(),
            v.deep_view().len() == v.len(),
            out@ == join_with(v.deep_view().take(i as int), sep@),
        decreases v.len() - i,
    {
        if i > 0 {
            out.append(sep);
        }
        out.append(v[i].as_str());
        proof {
            let dv = v.deep_view();
            assert(dv.take(i + 1) =~= dv.take(i as int).push(dv[i as int]));
            lemma_join_push(dv.take(i as int), sep@, dv[i as int]);
            assert(dv[i as int] == v@[i as int]@);
        }
        i = i + 1;
    }
    proof {
        assert(v.deep_view().take(v.len() as int) =~= v.deep_view());
    }
    out
}

} // verus!
