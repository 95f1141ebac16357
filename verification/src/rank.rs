//! Ranking of processes for the top-processes table.
//!
//! Processes are ordered by CPU usage, highest first; ties are broken
//! deterministically by process id, lowest first. The table shows at
//! most the first [`TOP_N`] processes of that order.

use vstd::prelude::*;
use vstd::seq_lib::lemma_multiset_commutative;
use vstd::seq_lib::group_to_multiset_ensures;
use crate::metrics::ProcessInfo;

verus! {

/// Largest number of processes shown in the table.
pub const TOP_N: usize = 10;

/// `a` is ranked no later than `b`: higher CPU usage first, and among
/// equal CPU usage the lower process id first.
pub open spec fn ranks_no_later(a: ProcessInfo, b: ProcessInfo) -> bool {
    a.cpu_milli_percent > b.cpu_milli_percent || (a.cpu_milli_percent == b.cpu_milli_percent
        && a.pid <= b.pid)
}

/// The sequence is in ranking order.
pub open spec fn sorted_by_rank(s: Seq<ProcessInfo>) -> bool {
    forall|i: int, j: int| 0 <= i <= j < s.len() ==> ranks_no_later(s[i], s[j])
}

/// `x` placed at its ranking position in `s`: before the first element
/// that `x` ranks no later than.
pub open spec fn insert_ranked(x: ProcessInfo, s: Seq<ProcessInfo>) -> Seq<ProcessInfo>
    decreases s.len(),
{
    if s.len() == 0 {
        seq![x]
    } else if ranks_no_later(x, s[0]) {
        seq![x] + s
    } else {
        seq![s[0]] + insert_ranked(x, s.drop_first())
    }
}

/// The elements of `s` in ranking order.
pub open spec fn ranked(s: Seq<ProcessInfo>) -> Seq<ProcessInfo>
    decreases s.len(),
{
    if s.len() == 0 {
        Seq::empty()
    } else {
        insert_ranked(s.last(), ranked(s.drop_last()))
    }
}

/// The ranked view of a process list: its elements in ranking order,
/// cut to the first [`TOP_N`].
pub open spec fn top_ranked(s: Seq<ProcessInfo>) -> Seq<ProcessInfo> {
    if s.len() <= TOP_N {
        ranked(s)
    } else {
        ranked(s).take(TOP_N as int)
    }
}

pub proof fn lemma_insert_ranked_len(x: ProcessInfo, s: Seq<ProcessInfo>)
    ensures
        insert_ranked(x, s).len() == s.len() + 1,
    decreases s.len(),
{
    if s.len() == 0 {
    } else if ranks_no_later(x, s[0]) {
    } else {
        lemma_insert_ranked_len(x, s.drop_first());
    }
}

/// Ranking keeps the number of elements.
pub proof fn lemma_ranked_len(s: Seq<ProcessInfo>)
    ensures
        ranked(s).len() == s.len(),
    decreases s.len(),
{
    if s.len() == 0 {
    } else {
        lemma_ranked_len(s.drop_last());
        lemma_insert_ranked_len(s.last(), ranked(s.drop_last()));
    }
}

/// The ranked view never exceeds [`TOP_N`] rows, and is shorter only
/// when there are fewer processes than that.
pub proof fn lemma_top_ranked_len(s: Seq<ProcessInfo>)
    ensures
        top_ranked(s).len() == if s.len() <= TOP_N {
            s.len()
        } else {
            TOP_N as nat
        },
        top_ranked(s).len() <= TOP_N,
{
    lemma_ranked_len(s);
}

pub proof fn lemma_insert_ranked_multiset(x: ProcessInfo, s: Seq<ProcessInfo>)
    ensures
        insert_ranked(x, s).to_multiset() == s.to_multiset().insert(x),
    decreases s.len(),
{
    broadcast use group_to_multiset_ensures;

    if s.len() == 0 {
        assert(insert_ranked(x, s) =~= Seq::<ProcessInfo>::empty().push(x));
        assert(insert_ranked(x, s).to_multiset() =~= s.to_multiset().insert(x));
    } else if ranks_no_later(x, s[0]) {
        assert(seq![x] + s =~= s.insert(0, x));
        assert(insert_ranked(x, s).to_multiset() =~= s.to_multiset().insert(x));
    } else {
        lemma_insert_ranked_multiset(x, s.drop_first());
        lemma_multiset_commutative(seq![s[0]], insert_ranked(x, s.drop_first()));
        lemma_multiset_commutative(seq![s[0]], s.drop_first());
        assert(s =~= seq![s[0]] + s.drop_first());
        assert(insert_ranked(x, s).to_multiset() =~= s.to_multiset().insert(x));
    }
}

/// Ranking is a permutation: it keeps exactly the elements it was given.
pub proof fn lemma_ranked_multiset(s: Seq<ProcessInfo>)
    ensures
        ranked(s).to_multiset() == s.to_multiset(),
    decreases s.len(),
{
    broadcast use group_to_multiset_ensures;

    if s.len() == 0 {
    } else {
        lemma_ranked_multiset(s.drop_last());
        lemma_insert_ranked_multiset(s.last(), ranked(s.drop_last()));
        assert(s =~= s.drop_last().push(s.last()));
        assert(ranked(s).to_multiset() =~= s.to_multiset());
    }
}

pub proof fn lemma_insert_ranked_sorted(x: ProcessInfo, s: Seq<ProcessInfo>)
    requires
        sorted_by_rank(s),
    ensures
        sorted_by_rank(insert_ranked(x, s)),
    decreases s.len(),
{
    broadcast use group_to_multiset_ensures;

    if s.len() == 0 {
    } else if ranks_no_later(x, s[0]) {
        let t = seq![x] + s;
        assert forall|i: int, j: int| 0 <= i <= j < t.len() implies ranks_no_later(
            t[i],
            t[j],
        ) by {
            if i == 0 && j > 0 {
                assert(ranks_no_later(s[0], s[j - 1]));
            }
        }
    } else {
        let rest = s.drop_first();
        lemma_insert_ranked_sorted(x, rest);
        lemma_insert_ranked_multiset(x, rest);
        let t = seq![s[0]] + insert_ranked(x, rest);
        assert forall|i: int, j: int| 0 <= i <= j < t.len() implies ranks_no_later(
            t[i],
            t[j],
        ) by {
            if i == 0 && j > 0 {
                let y = insert_ranked(x, rest)[j - 1];
                assert(insert_ranked(x, rest).contains(y));
                assert(insert_ranked(x, rest).to_multiset().count(y) > 0);
                if y == x {
                    assert(ranks_no_later(s[0], x));
                } else {
                    assert(rest.to_multiset().count(y) > 0);
                    assert(rest.contains(y));
                    let k = choose|k: int| 0 <= k < rest.len() && rest[k] == y;
                    assert(ranks_no_later(s[0], s[k + 1]));
                }
            }
        }
    }
}

/// The ranked view is in ranking order.
pub proof fn lemma_ranked_sorted(s: Seq<ProcessInfo>)
    ensures
        sorted_by_rank(ranked(s)),
    decreases s.len(),
{
    if s.len() == 0 {
    } else {
        lemma_ranked_sorted(s.drop_last());
        lemma_insert_ranked_sorted(s.last(), ranked(s.drop_last()));
    }
}

/// The ranked view is cut, never reordered: it is a prefix of the full
/// ranking, so every process it keeps ranks no later than every process
/// it drops.
pub proof fn lemma_top_ranked_dominates(s: Seq<ProcessInfo>)
    ensures
        forall|i: int, x: ProcessInfo|
            0 <= i < top_ranked(s).len() && s.to_multiset().count(x) > top_ranked(
                s,
            ).to_multiset().count(x) ==> ranks_no_later(top_ranked(s)[i], x),
{
    broadcast use group_to_multiset_ensures;

    lemma_ranked_len(s);
    lemma_ranked_multiset(s);
    lemma_ranked_sorted(s);
    if s.len() <= TOP_N {
    } else {
        let r = ranked(s);
        let kept = r.take(TOP_N as int);
        let dropped = r.skip(TOP_N as int);
        assert(r =~= kept + dropped);
        lemma_multiset_commutative(kept, dropped);
        assert forall|i: int, x: ProcessInfo|
            0 <= i < top_ranked(s).len() && s.to_multiset().count(x) > top_ranked(
                s,
            ).to_multiset().count(x) implies ranks_no_later(top_ranked(s)[i], x) by {
            assert(dropped.to_multiset().count(x) > 0);
            assert(dropped.contains(x));
            let j = choose|j: int| 0 <= j < dropped.len() && dropped[j] == x;
            assert(r[TOP_N + j] == x);
            assert(ranks_no_later(r[i], r[TOP_N + j]));
        }
    }
}

/// Whether `a` is ranked no later than `b`.
pub fn ranks_no_later_than(a: &ProcessInfo, b: &ProcessInfo) -> (r: bool)
    ensures
        r == ranks_no_later(*a, *b),
{
    a.cpu_milli_percent > b.cpu_milli_percent || (a.cpu_milli_percent == b.cpu_milli_percent
        && a.pid <= b.pid)
}

proof fn lemma_insert_ranked_at(x: ProcessInfo, s: Seq<ProcessInfo>, pos: int)
    requires
        0 <= pos <= s.len(),
        forall|k: int| 0 <= k < pos ==> !ranks_no_later(x, s[k]),
        pos < s.len() ==> ranks_no_later(x, s[pos]),
    ensures
        insert_ranked(x, s) == s.take(pos) + seq![x] + s.skip(pos),
    decreases s.len(),
{
    if pos == 0 {
        assert(insert_ranked(x, s) =~= s.take(0) + seq![x] + s.skip(0));
    } else {
        let rest = s.drop_first();
        lemma_insert_ranked_at(x, rest, pos - 1);
        assert(insert_ranked(x, s) =~= s.take(pos) + seq![x] + s.skip(pos));
    }
}

/// First position of `sorted` at which `x` can stand in ranking order.
fn insertion_point(sorted: &Vec<ProcessInfo>, x: &ProcessInfo) -> (pos: usize)
    ensures
        pos <= sorted@.len(),
        forall|k: int| 0 <= k < pos ==> !ranks_no_later(*x, sorted@[k]),
        pos < sorted@.len() ==> ranks_no_later(*x, sorted@[pos as int]),
{
    let n = sorted.len();
    let mut pos: usize = 0;
    while pos < n
        invariant
            n == sorted@.len(),
            pos <= n,
            forall|k: int| 0 <= k < pos ==> !ranks_no_later(*x, sorted@[k]),
        decreases n - pos,
    {
        if ranks_no_later_than(x, &sorted[pos]) {
            return pos;
        }
        pos = pos + 1;
    }
    pos
}

/// The top of the process list: its elements in ranking order (highest
/// CPU usage first, ties by lowest process id first), cut to the first
/// [`TOP_N`].
pub fn rank_processes(procs: Vec<ProcessInfo>) -> (r: Vec<ProcessInfo>)
    ensures
        r@ == top_ranked(procs@),
{
    let ghost orig = procs@;
    let mut rest = procs;
    let mut sorted: Vec<ProcessInfo> = Vec::new();
    let n = rest.len();
    let mut i: usize = 0;
    while i < n
        invariant
            n == orig.len(),
            i <= n,
            rest@ == orig.skip(i as int),
            sorted@ == ranked(orig.take(i as int)),
        decreases n - i,
    {
        let x = rest.remove(0);
        proof {
            assert(x == orig[i as int]);
            assert(rest@ =~= orig.skip(i + 1 as int));
        }
        let pos = insertion_point(&sorted, &x);
        proof {
            lemma_insert_ranked_at(x, sorted@, pos as int);
        }
        let ghost before = sorted@;
        sorted.insert(pos, x);
        proof {
            assert(sorted@ =~= before.take(pos as int) + seq![x] + before.skip(pos as int));
            assert(orig.take(i + 1 as int).drop_last() =~= orig.take(i as int));
            assert(orig.take(i + 1 as int).last() == orig[i as int]);
            assert(sorted@ == ranked(orig.take(i + 1 as int)));
        }
        i = i + 1;
    }
    proof {
        assert(orig.take(n as int) =~= orig);
        lemma_ranked_len(orig);
    }
    sorted.truncate(TOP_N);
    proof {
        if orig.len() > TOP_N {
            assert(sorted@ =~= ranked(orig).take(TOP_N as int));
        }
    }
    sorted
}

} // verus!
