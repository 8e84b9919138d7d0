//! Match highlighting for picker rows: the byte indices a fuzzy match hit,
//! merged into ranges to highlight.

use vstd::prelude::*;

verus! {

/// The ranges `indices` merge into, read in order: an index right after the
/// current range extends it, any other index starts a new range.
pub open spec fn merged_runs(indices: Seq<usize>) -> Seq<(int, int)>
    decreases indices.len(),
{
    if indices.len() == 0 {
        Seq::empty()
    } else {
        let rest = merged_runs(indices.drop_last());
        let x = indices.last() as int;
        if rest.len() > 0 && rest.last().1 == x {
            rest.update(rest.len() - 1, (rest.last().0, x + 1))
        } else {
            rest.push((x, x + 1))
        }
    }
}

/// Whether `s` strictly increases.
pub open spec fn strictly_sorted(s: Seq<usize>) -> bool {
    forall|i: int, j: int| 0 <= i < j < s.len() ==> s[i] < s[j]
}

/// Whether some range of `r` contains `x`.
pub open spec fn covered(r: Seq<(int, int)>, x: int) -> bool {
    exists|j: int| 0 <= j < r.len() && (#[trigger] r[j]).0 <= x < r[j].1
}

/// Whether `y` is one of the indices in `s`.
pub open spec fn hits(s: Seq<usize>, y: int) -> bool {
    exists|i: int| 0 <= i < s.len() && s[i] == y
}

/// Converts a sorted list of byte indices from fuzzy matching into sorted,
/// non-overlapping ranges; consecutive indices merge, so `[0, 1, 2, 5, 6]`
/// becomes `[0..3, 5..7]`.
pub fn fuzzy_bytes_to_ranges(indices: &[usize]) -> (r: Vec<core::ops::Range<usize>>)
    requires
        forall|i: int| 0 <= i < indices@.len() ==> indices@[i] < usize::MAX,
    ensures
        r@.len() == merged_runs(indices@).len(),
        forall|j: int|
            0 <= j < r@.len() ==> (#[trigger] r@[j]).start == merged_runs(indices@)[j].0
                && r@[j].end == merged_runs(indices@)[j].1,
{
    let mut ranges: Vec<core::ops::Range<usize>> = Vec::new();
    if indices.len() == 0 {
        return ranges;
    }
    let mut start: usize = indices[0];
    let mut end: usize = indices[0] + 1;
    let mut i: usize = 1;
    proof {
        assert(indices@.take(1).drop_last() =~= Seq::<usize>::empty());
        assert(merged_runs(Seq::<usize>::empty()).len() == 0);
        assert(indices@.take(1).last() == indices@[0]);
        assert(merged_runs(indices@.take(1)) =~= seq![(start as int, end as int)]);
    }
    while i < indices.len()
        invariant
            1 <= i <= indices@.len(),
            forall|k: int| 0 <= k < indices@.len() ==> indices@[k] < usize::MAX,
            ranges@.len() + 1 == merged_runs(indices@.take(i as int)).len(),
            forall|j: int|
                0 <= j < ranges@.len() ==> (#[trigger] ranges@[j]).start == merged_runs(
                    indices@.take(i as int),
                )[j].0 && ranges@[j].end == merged_runs(indices@.take(i as int))[j].1,
            merged_runs(indices@.take(i as int)).last() == (start as int, end as int),
        decreases indices@.len() - i,
    {
        let idx = indices[i];
        proof {
            assert(indices@.take(i + 1).drop_last() =~= indices@.take(i as int));
            assert(indices@.take(i + 1).last() == idx);
        }
        if idx == end {
            end = idx + 1;
        } else {
            ranges.push(start..end);
            start = idx;
            end = idx + 1;
        }
        i = i + 1;
    }
    ranges.push(start..end);
    proof {
        assert(indices@.take(i as int) =~= indices@);
    }
    ranges
}

/// The ranges cover exactly the matched indices, each range is non-empty,
/// the last one ends just after the last index, and for sorted indices the
/// ranges are sorted and separated by at least one unmatched index.
pub proof fn lemma_runs_cover_indices(s: Seq<usize>)
    ensures
        s.len() > 0 ==> merged_runs(s).len() > 0 && merged_runs(s).last().1 == s.last() + 1,
        forall|j: int|
            0 <= j < merged_runs(s).len() ==> #[trigger] merged_runs(s)[j].0 < merged_runs(s)[j].1,
        forall|y: int| #[trigger] covered(merged_runs(s), y) <==> hits(s, y),
        strictly_sorted(s) ==> forall|j: int, k: int|
            0 <= j < k < merged_runs(s).len() ==> #[trigger] merged_runs(s)[j].1 < #[trigger] merged_runs(
                s,
            )[k].0,
    decreases s.len(),
{
    if s.len() == 0 {
        return;
    }
    let p = s.drop_last();
    lemma_runs_cover_indices(p);
    let rest = merged_runs(p);
    let x = s.last() as int;
    let r = merged_runs(s);
    if strictly_sorted(s) {
        assert forall|i: int, j: int| 0 <= i < j < p.len() implies p[i] < p[j] by {
            assert(s[i] < s[j]);
        }
    }
    assert forall|y: int| #[trigger] covered(r, y) <==> (covered(rest, y) || y == x) by {
        if rest.len() > 0 && rest.last().1 == x {
            let n = rest.len() - 1;
            if covered(r, y) {
                let j = choose|j: int| 0 <= j < r.len() && (#[trigger] r[j]).0 <= y < r[j].1;
                if j < n {
                    assert(rest[j] == r[j]);
                } else if y != x {
                    assert(rest[n].0 <= y < rest[n].1);
                }
            }
            if covered(rest, y) {
                let j = choose|j: int| 0 <= j < rest.len() && (#[trigger] rest[j]).0 <= y < rest[j].1;
                assert(r[j].0 <= y < r[j].1);
            }
            if y == x {
                assert(r[n].0 <= y < r[n].1);
            }
        } else {
            if covered(r, y) {
                let j = choose|j: int| 0 <= j < r.len() && (#[trigger] r[j]).0 <= y < r[j].1;
                if j < rest.len() {
                    assert(rest[j] == r[j]);
                }
            }
            if covered(rest, y) {
                let j = choose|j: int| 0 <= j < rest.len() && (#[trigger] rest[j]).0 <= y < rest[j].1;
                assert(r[j] == rest[j]);
            }
            if y == x {
                assert(r[rest.len() as int].0 <= y < r[rest.len() as int].1);
            }
        }
    }
    assert forall|y: int| #[trigger] hits(s, y) <==> (hits(p, y) || y == x) by {
        if hits(s, y) {
            let i = choose|i: int| 0 <= i < s.len() && s[i] == y;
            if i < p.len() {
                assert(p[i] == y);
            }
        }
        if hits(p, y) {
            let i = choose|i: int| 0 <= i < p.len() && p[i] == y;
            assert(s[i] == y);
        }
        if y == x {
            assert(s[s.len() - 1] == y);
        }
    }
    assert forall|y: int| #[trigger] covered(r, y) <==> hits(s, y) by {
        assert(covered(rest, y) <==> hits(p, y));
        assert(hits(s, y) <==> (hits(p, y) || y == x));
    }
    if strictly_sorted(s) {
        if p.len() > 0 {
            assert(p.last() == s[s.len() - 2]);
            assert(s[s.len() - 2] < s[s.len() - 1]);
        }
        assert forall|j: int, k: int| 0 <= j < k < r.len() implies #[trigger] r[j].1 < #[trigger] r[k].0 by {
            if rest.len() > 0 && rest.last().1 == x {
                assert(rest[j].1 < rest[k].0);
            } else if k < rest.len() {
                assert(rest[j].1 < rest[k].0);
            } else {
                assert(rest[j].1 <= rest.last().1) by {
                    if j < rest.len() - 1 {
                        assert(rest[j].1 < rest[rest.len() - 1].0);
                    }
                }
            }
        }
    }
}

} // verus!
