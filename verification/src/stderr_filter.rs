//! The stderr half of the diagnostic filter: drop the transient
//! lock-contention notice that the build tool prints while it waits for
//! another invocation to release the package cache, and keep every other
//! line verbatim, in order.

use crate::text::{
    join_strings, join_with_nl, lemma_join_split, lemma_split_join, lemma_split_segments_nl_free,
    nl_free, occurs_in, split_lines, split_on_nl, str_contains,
};
use vstd::prelude::*;
use vstd::seq_lib::*;

verus! {

/// The transient message the build tool prints while waiting for an
/// exclusive file-system lock held by a concurrent invocation.
pub open spec fn lock_pattern() -> Seq<char> {
    "Blocking waiting for file lock"@
}

/// A line is operator noise when it contains the lock-wait message.
pub open spec fn has_lock_msg(l: Seq<char>) -> bool {
    occurs_in(l, lock_pattern())
}

/// Keep a line unless it contains the lock-wait message.
pub open spec fn keep_line_fn() -> spec_fn(Seq<char>) -> Option<Seq<char>> {
    |l: Seq<char>|
        if has_lock_msg(l) {
            None
        } else {
            Some(l)
        }
}

/// The lines of `ls` that do not contain the lock-wait message, in order.
pub open spec fn kept_lines(ls: Seq<Seq<char>>) -> Seq<Seq<char>> {
    ls.filter_map(keep_line_fn())
}

/// What `filter_stderr` returns: the input's lines without those containing
/// the lock-wait message, rejoined with newlines.
pub open spec fn spec_filter_stderr(s: Seq<char>) -> Seq<char> {
    join_with_nl(kept_lines(split_on_nl(s)))
}

/// Drop every line of `stderr` that contains the lock-wait message; preserve
/// the order and content of all other lines, rejoining them with newlines.
pub fn filter_stderr(stderr: &str) -> (out: String)
    ensures
        out@ == spec_filter_stderr(stderr@),
{
    let lines = split_lines(stderr);
    let mut kept: Vec<String> = Vec::new();
    let mut i: usize = 0;
    proof {
        assert(kept.deep_view() =~= Seq::<Seq<char>>::empty());
        assert(lines.deep_view().take(0) =~= Seq::<Seq<char>>::empty());
        assert(Seq::<Seq<char>>::empty().filter_map(keep_line_fn()) =~= Seq::<Seq<char>>::empty());
    }
    while i < lines.len()
        invariant
            0 <= i <= lines.len(),
            lines.deep_view().len() == lines.len(),
            kept.deep_view() == lines.deep_view().take(i as int).filter_map(keep_line_fn()),
        decreases lines.len() - i,
    {
        let ghost dv = lines.deep_view();
        proof {
            dv.lemma_filter_map_take_succ(keep_line_fn(), i as int);
            assert(dv[i as int] == lines@[i as int]@);
        }
        if !str_contains(lines[i].as_str(), "Blocking waiting for file lock") {
            let ghost prev = kept.deep_view();
            kept.push(lines[i].clone());
            proof {
                assert(kept.deep_view() =~= prev.push(dv[i as int]));
                assert(kept.deep_view() =~= dv.take(i + 1).filter_map(keep_line_fn()));
            }
        }
        i = i + 1;
    }
    proof {
        assert(lines.deep_view().take(lines.len() as int) =~= lines.deep_view());
    }
    let out = join_strings(&kept, "\n");
    proof {
        reveal_strlit("\n");
        assert("\n"@ =~= seq!['\n']);
    }
    out
}

/// Law: the filter never reorders, drops or edits a line that does not
/// contain the lock-wait message — the lines of the output are exactly the
/// kept lines of the input, provided at least one line is kept (an output
/// with no lines at all is the empty text, which reads as one empty line).
pub proof fn lemma_filter_stderr_keeps_lines(s: Seq<char>)
    requires
        kept_lines(split_on_nl(s)).len() >= 1,
    ensures
        split_on_nl(spec_filter_stderr(s)) == kept_lines(split_on_nl(s)),
{
    let ls = split_on_nl(s);
    let kept = kept_lines(ls);
    lemma_split_segments_nl_free(s);
    assert forall|i: int| 0 <= i < kept.len() implies nl_free(#[trigger] kept[i]) by {
        assert(kept.contains(kept[i]));
        ls.lemma_filter_map_contains(keep_line_fn(), kept[i]);
        let t = choose|t: Seq<char>|
            #[trigger] ls.contains(t) && keep_line_fn()(t) == Some(kept[i]);
        assert(t == kept[i]);
    }
    lemma_split_join(kept);
}

/// Law: text in which no line contains the lock-wait message passes through
/// the filter unchanged.
pub proof fn lemma_filter_stderr_clean_identity(s: Seq<char>)
    requires
        forall|i: int|
            0 <= i < split_on_nl(s).len() ==> !has_lock_msg(#[trigger] split_on_nl(s)[i]),
    ensures
        spec_filter_stderr(s) == s,
{
    lemma_kept_lines_all(split_on_nl(s));
    lemma_join_split(s);
}

/// Filtering a line sequence in which every line is kept returns it whole.
proof fn lemma_kept_lines_all(ls: Seq<Seq<char>>)
    requires
        forall|i: int| 0 <= i < ls.len() ==> !has_lock_msg(#[trigger] ls[i]),
    ensures
        kept_lines(ls) == ls,
    decreases ls.len(),
{
    if ls.len() > 0 {
        assert(forall|i: int|
            0 <= i < ls.drop_last().len() ==> !has_lock_msg(#[trigger] ls.drop_last()[i]));
        lemma_kept_lines_all(ls.drop_last());
        assert(!has_lock_msg(ls.last()));
        assert(kept_lines(ls) =~= ls.drop_last() + seq![ls.last()]);
        assert(ls.drop_last() + seq![ls.last()] =~= ls);
    }
}

} // verus!
