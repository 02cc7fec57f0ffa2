//! Stable index compaction: removing a batch of positions from a growable
//! sequence.  The positions are collected from several sources, so they first
//! get sorted and deduplicated; removal then walks them in ascending order,
//! subtracting from each position the number of elements already removed, so
//! every removal addresses the current sequence rather than stale positions.

use vstd::prelude::*;

verus! {

/// A sequence of positions in strictly increasing order.
pub open spec fn sorted_strict(s: Seq<usize>) -> bool {
    forall|i: int, j: int| 0 <= i < j < s.len() ==> s[i] < s[j]
}

/// Every position addresses a sequence of length `n`.
pub open spec fn all_below(s: Seq<usize>, n: int) -> bool {
    forall|i: int| 0 <= i < s.len() ==> s[i] < n
}

/// The sequence left after removing the positions `idxs` (strictly
/// increasing) from `s`.  The recursion removes the highest position first,
/// which leaves the lower positions untouched.
pub open spec fn remove_idxs<T>(s: Seq<T>, idxs: Seq<usize>) -> Seq<T>
    decreases idxs.len(),
{
    if idxs.len() == 0 {
        s
    } else {
        remove_idxs(s.remove(idxs.last() as int), idxs.drop_last())
    }
}

/// The elements of `s` standing at the positions `idxs`, in order.
pub open spec fn picked<T>(s: Seq<T>, idxs: Seq<usize>) -> Seq<T> {
    Seq::new(idxs.len(), |k: int| s[idxs[k] as int])
}

/// Removing a position below `m` commutes with removing `m`: the removal of
/// `m` shifts down by one for each lower position already removed.
proof fn lemma_remove_swap<T>(s: Seq<T>, i: int, j: int)
    requires
        0 <= i < j < s.len(),
    ensures
        s.remove(j).remove(i) == s.remove(i).remove(j - 1),
{
    s.remove_ensures(j);
    s.remove(j).remove_ensures(i);
    s.remove_ensures(i);
    s.remove(i).remove_ensures(j - 1);
    assert(s.remove(j).remove(i) =~= s.remove(i).remove(j - 1));
}

/// Removing the positions `idxs` (all below `m`) from `s.remove(m)` is the
/// same as removing them from `s` first and then removing `m`, shifted down
/// by the number of removed positions.
proof fn lemma_remove_idxs_shift<T>(s: Seq<T>, idxs: Seq<usize>, m: int)
    requires
        sorted_strict(idxs),
        all_below(idxs, m),
        0 <= m < s.len(),
    ensures
        remove_idxs(s.remove(m), idxs) == remove_idxs(s, idxs).remove(m - idxs.len()),
    decreases idxs.len(),
{
    if idxs.len() == 0 {
    } else {
        let l = idxs.last() as int;
        lemma_remove_swap(s, l, m);
        assert(s.remove(m).remove(l) == s.remove(l).remove(m - 1));
        lemma_remove_idxs_shift(s.remove(l), idxs.drop_last(), m - 1);
    }
}

/// The length of the compacted sequence.
pub proof fn lemma_remove_idxs_len<T>(s: Seq<T>, idxs: Seq<usize>)
    requires
        sorted_strict(idxs),
        all_below(idxs, s.len() as int),
    ensures
        remove_idxs(s, idxs).len() == s.len() - idxs.len(),
    decreases idxs.len(),
{
    if idxs.len() == 0 {
    } else {
        let l = idxs.last() as int;
        s.remove_ensures(l);
        lemma_remove_idxs_len(s.remove(l), idxs.drop_last());
    }
}

/// A position past every removed one keeps its element, shifted down by the
/// number of removed positions.
proof fn lemma_remove_idxs_past<T>(s: Seq<T>, idxs: Seq<usize>, p: int)
    requires
        sorted_strict(idxs),
        all_below(idxs, p),
        0 <= p < s.len(),
    ensures
        remove_idxs(s, idxs).len() == s.len() - idxs.len(),
        remove_idxs(s, idxs)[p - idxs.len()] == s[p],
    decreases idxs.len(),
{
    lemma_remove_idxs_len(s, idxs);
    if idxs.len() == 0 {
    } else {
        let l = idxs.last() as int;
        s.remove_ensures(l);
        lemma_remove_idxs_past(s.remove(l), idxs.drop_last(), p - 1);
    }
}

/// Positions strictly increasing from zero grow at least as fast as their
/// rank: the `k`-th removed position is at least `k`.
proof fn lemma_sorted_rank(idxs: Seq<usize>, k: int)
    requires
        sorted_strict(idxs),
        all_below(idxs, usize::MAX as int + 1),
        0 <= k < idxs.len(),
    ensures
        idxs[k] >= k,
    decreases k,
{
    if k > 0 {
        lemma_sorted_rank(idxs, k - 1);
    }
}

/// Removes the elements at the given positions, ascending, subtracting from
/// each position its rank among the removals already done, and returns the
/// removed elements in order.
pub fn remove_sorted_indices<T>(v: &mut Vec<T>, indices: &Vec<usize>) -> (removed: Vec<T>)
    requires
        sorted_strict(indices@),
        all_below(indices@, old(v)@.len() as int),
    ensures
        final(v)@ == remove_idxs(old(v)@, indices@),
        removed@ == picked(old(v)@, indices@),
{
    let ghost s0 = v@;
    let mut removed: Vec<T> = Vec::new();
    let mut k: usize = 0;
    while k < indices.len()
        invariant
            0 <= k <= indices@.len(),
            sorted_strict(indices@),
            all_below(indices@, s0.len() as int),
            v@ == remove_idxs(s0, indices@.take(k as int)),
            v@.len() == s0.len() - k,
            removed@ == picked(s0, indices@.take(k as int)),
        decreases indices@.len() - k,
    {
        let idx = indices[k];
        proof {
            lemma_sorted_rank(indices@, k as int);
            assert(idx >= k);
            let pre = indices@.take(k as int);
            assert(all_below(pre, idx as int));
            lemma_remove_idxs_past(s0, pre, idx as int);
            assert(v@[idx - k] == s0[idx as int]);
        }
        let position = idx - k;
        let x = v.remove(position);
        removed.push(x);
        proof {
            let pre = indices@.take(k as int);
            let pre1 = indices@.take(k as int + 1);
            assert(pre1.drop_last() =~= pre);
            assert(pre1.last() == idx);
            lemma_remove_idxs_shift(s0, pre, idx as int);
            assert(remove_idxs(s0, pre1) == remove_idxs(s0.remove(idx as int), pre));
            assert(v@ == remove_idxs(s0, pre).remove(idx - k as int));
            assert(v@ == remove_idxs(s0, pre1));
            assert(removed@ =~= picked(s0, pre1));
        }
        k = k + 1;
    }
    proof {
        assert(indices@.take(indices@.len() as int) =~= indices@);
    }
    removed
}

/// Sorts a batch of positions ascending and drops duplicates: the result is
/// strictly increasing and holds exactly the positions of the input.
pub fn sort_dedup(input: &Vec<usize>) -> (out: Vec<usize>)
    ensures
        sorted_strict(out@),
        out@.to_set() == input@.to_set(),
{
    let mut out: Vec<usize> = Vec::new();
    let mut i: usize = 0;
    while i < input.len()
        invariant
            0 <= i <= input@.len(),
            sorted_strict(out@),
            out@.to_set() == input@.take(i as int).to_set(),
        decreases input@.len() - i,
    {
        let x = input[i];
        let mut pos: usize = 0;
        while pos < out.len() && out[pos] < x
            invariant
                0 <= pos <= out@.len(),
                forall|j: int| 0 <= j < pos ==> out@[j] < x,
            decreases out@.len() - pos,
        {
            pos = pos + 1;
        }
        proof {
            assert(input@.take(i as int + 1).drop_last() =~= input@.take(i as int));
            assert(input@.take(i as int + 1) =~= input@.take(i as int).push(x));
        }
        if pos < out.len() && out[pos] == x {
            // already present
            proof {
                assert(out@.contains(x));
                assert(out@.to_set().contains(x));
                assert(input@.take(i as int).to_set().insert(x) =~= input@.take(i as int).to_set());
                lemma_to_set_push(input@.take(i as int), x);
            }
        } else {
            let ghost pre = out@;
            out.insert(pos, x);
            proof {
                pre.insert_ensures(pos as int, x);
                assert forall|a: int, b: int| 0 <= a < b < out@.len() implies out@[a] < out@[b] by {
                    if b < pos {
                        assert(out@[a] == pre[a] && out@[b] == pre[b]);
                    } else if a > pos {
                        assert(out@[a] == pre[a - 1] && out@[b] == pre[b - 1]);
                    } else if a == pos {
                        assert(out@[a] == x && out@[b] == pre[b - 1]);
                        assert(pre[pos as int] <= pre[b - 1]);
                    } else if b == pos {
                        assert(out@[b] == x && out@[a] == pre[a]);
                    } else {
                        assert(a < pos && b > pos);
                        assert(out@[a] == pre[a] && out@[b] == pre[b - 1]);
                        assert(pre[a] < x);
                        if pos < pre.len() {
                            assert(x < pre[pos as int] || x == pre[pos as int] || pre[pos as int] < x);
                        }
                        assert(x < out@[b] || x == out@[b]);
                    }
                };
                assert(out@.to_set() =~= pre.to_set().insert(x)) by {
                    assert forall|y: usize| out@.to_set().contains(y) implies pre.to_set().contains(y)
                        || y == x by {
                        let w = choose|w: int| 0 <= w < out@.len() && out@[w] == y;
                        if w != pos {
                            assert(pre.contains(y));
                        }
                    };
                    assert forall|y: usize| pre.to_set().contains(y) implies out@.to_set().contains(
                        y,
                    ) by {
                        let w = choose|w: int| 0 <= w < pre.len() && pre[w] == y;
                        if w < pos {
                            assert(out@[w] == y);
                        } else {
                            assert(out@[w + 1] == y);
                        }
                    };
                    assert(out@.to_set().contains(x)) by {
                        assert(out@[pos as int] == x);
                    };
                };
                lemma_to_set_push(input@.take(i as int), x);
            }
        }
        i = i + 1;
    }
    proof {
        assert(input@.take(input@.len() as int) =~= input@);
    }
    out
}

/// Pushing an element inserts it into the set of a sequence's elements.
proof fn lemma_to_set_push(s: Seq<usize>, x: usize)
    ensures
        s.push(x).to_set() == s.to_set().insert(x),
{
    assert(s.push(x).to_set() =~= s.to_set().insert(x)) by {
        assert forall|y: usize| s.push(x).to_set().contains(y) implies s.to_set().insert(x).contains(
            y,
        ) by {
            let w = choose|w: int| 0 <= w < s.push(x).len() && s.push(x)[w] == y;
            if w < s.len() {
                assert(s.contains(y));
            }
        };
        assert forall|y: usize| s.to_set().insert(x).contains(y) implies s.push(x).to_set().contains(
            y,
        ) by {
            if y == x {
                assert(s.push(x)[s.len() as int] == x);
            } else {
                let w = choose|w: int| 0 <= w < s.len() && s[w] == y;
                assert(s.push(x)[w] == y);
            }
        };
    };
}

/// A strictly increasing sequence of positions is determined by the set of
/// positions it holds: compaction driven by any collection of position
/// batches with the same members removes the same elements.
pub proof fn lemma_sorted_set_unique(a: Seq<usize>, b: Seq<usize>)
    requires
        sorted_strict(a),
        sorted_strict(b),
        a.to_set() == b.to_set(),
    ensures
        a == b,
    decreases a.len(),
{
    if a.len() == 0 {
        if b.len() > 0 {
            assert(b.to_set().contains(b[0]));
            assert(a.contains(b[0]));
        }
        assert(a =~= b);
    } else {
        assert(a.to_set().contains(a.last()));
        assert(b.to_set().contains(a.last()));
        assert(b.len() > 0) by {
            if b.len() == 0 {
                assert(b.contains(a.last()));
            }
        };
        // the last element of each is the maximum of the shared set
        let wa = choose|w: int| 0 <= w < b.len() && b[w] == a.last();
        assert(b.last() >= a.last()) by {
            if wa < b.len() - 1 {
                assert(b[wa] < b.last());
            }
        };
        assert(a.to_set().contains(b.last()));
        let wb = choose|w: int| 0 <= w < a.len() && a[w] == b.last();
        assert(a.last() >= b.last()) by {
            if wb < a.len() - 1 {
                assert(a[wb] < a.last());
            }
        };
        assert(a.last() == b.last());
        assert(a.drop_last().to_set() == b.drop_last().to_set()) by {
            assert(a.drop_last().to_set() =~= a.to_set().remove(a.last())) by {
                lemma_drop_last_set(a);
            };
            assert(b.drop_last().to_set() =~= b.to_set().remove(b.last())) by {
                lemma_drop_last_set(b);
            };
        };
        lemma_sorted_set_unique(a.drop_last(), b.drop_last());
        assert(a =~= b) by {
            assert(a.drop_last() == b.drop_last());
            assert(a.len() == b.len());
            assert(forall|i: int|
                0 <= i < a.len() - 1 ==> a[i] == a.drop_last()[i] && b[i] == b.drop_last()[i]);
        };
    }
}

/// Dropping the last element of a strictly increasing sequence removes
/// exactly that element from its set of members.
proof fn lemma_drop_last_set(s: Seq<usize>)
    requires
        sorted_strict(s),
        s.len() > 0,
    ensures
        s.drop_last().to_set() == s.to_set().remove(s.last()),
{
    assert(s.drop_last().to_set() =~= s.to_set().remove(s.last())) by {
        assert forall|y: usize| s.drop_last().to_set().contains(y) implies s.to_set().remove(
            s.last(),
        ).contains(y) by {
            let w = choose|w: int| 0 <= w < s.len() - 1 && s[w] == y;
            assert(s.contains(y));
            assert(s[w] < s.last());
        };
        assert forall|y: usize| s.to_set().remove(s.last()).contains(y) implies s.drop_last(
        ).to_set().contains(y) by {
            let w = choose|w: int| 0 <= w < s.len() && s[w] == y;
            assert(w < s.len() - 1) by {
                if w == s.len() - 1 {
                    assert(y == s.last());
                }
            };
            assert(s.drop_last()[w] == y);
        };
    };
}

/// The positions below `n` that satisfy `pred`, in ascending order: the
/// canonical batch of positions a compaction pass removes.
pub open spec fn asc_filter(n: nat, pred: spec_fn(usize) -> bool) -> Seq<usize>
    decreases n,
{
    if n == 0 {
        Seq::empty()
    } else {
        let prev = asc_filter((n - 1) as nat, pred);
        if pred((n - 1) as usize) {
            prev.push((n - 1) as usize)
        } else {
            prev
        }
    }
}

/// `asc_filter` is strictly increasing and holds exactly the positions
/// below `n` that satisfy the predicate.
pub proof fn lemma_asc_filter_props(n: nat, pred: spec_fn(usize) -> bool)
    requires
        n <= usize::MAX,
    ensures
        sorted_strict(asc_filter(n, pred)),
        all_below(asc_filter(n, pred), n as int),
        forall|k: int|
            0 <= k < asc_filter(n, pred).len() ==> pred(#[trigger] asc_filter(n, pred)[k]),
        forall|u: usize| u < n && pred(u) ==> #[trigger] asc_filter(n, pred).contains(u),
    decreases n,
{
    if n > 0 {
        lemma_asc_filter_props((n - 1) as nat, pred);
        let prev = asc_filter((n - 1) as nat, pred);
        let cur = asc_filter(n, pred);
        if pred((n - 1) as usize) {
            assert forall|u: usize| u < n && pred(u) implies cur.contains(u) by {
                if u < n - 1 {
                    assert(prev.contains(u));
                    let k = choose|k: int| 0 <= k < prev.len() && prev[k] == u;
                    assert(cur[k] == u);
                } else {
                    assert(cur[cur.len() - 1] == u);
                }
            };
        } else {
            assert forall|u: usize| u < n && pred(u) implies cur.contains(u) by {
                assert(u < n - 1);
                assert(prev.contains(u));
                let k = choose|k: int| 0 <= k < prev.len() && prev[k] == u;
                assert(cur[k] == u);
            };
        }
    }
}

/// Below a bound where the predicate never holds, the filter is empty.
pub proof fn lemma_asc_filter_empty(n: nat, pred: spec_fn(usize) -> bool)
    requires
        n <= usize::MAX,
        forall|u: usize| u < n ==> !#[trigger] pred(u),
    ensures
        asc_filter(n, pred) == Seq::<usize>::empty(),
    decreases n,
{
    if n > 0 {
        lemma_asc_filter_empty((n - 1) as nat, pred);
    }
}

/// Positions at or past `m` that never satisfy the predicate do not extend
/// the filter.
pub proof fn lemma_asc_filter_tail(m: nat, n: nat, pred: spec_fn(usize) -> bool)
    requires
        m <= n,
        n <= usize::MAX,
        forall|u: usize| m <= u < n ==> !#[trigger] pred(u),
    ensures
        asc_filter(n, pred) == asc_filter(m, pred),
    decreases n,
{
    if n > m {
        assert(!pred((n - 1) as usize));
        lemma_asc_filter_tail(m, (n - 1) as nat, pred);
    }
}

/// A filter over fewer positions is a prefix of the filter over more.
pub proof fn lemma_asc_filter_prefix(m: nat, n: nat, pred: spec_fn(usize) -> bool)
    requires
        m <= n,
    ensures
        asc_filter(m, pred).is_prefix_of(asc_filter(n, pred)),
    decreases n,
{
    if n > m {
        lemma_asc_filter_prefix(m, (n - 1) as nat, pred);
        assert(asc_filter(m, pred).is_prefix_of(asc_filter((n - 1) as nat, pred)));
        let prev = asc_filter((n - 1) as nat, pred);
        let cur = asc_filter(n, pred);
        if pred((n - 1) as usize) {
            assert(prev.is_prefix_of(prev.push((n - 1) as usize)));
        }
    }
}


/// The running total of a batch of token amounts.
pub open spec fn seq_sum(s: Seq<u128>) -> int
    decreases s.len(),
{
    if s.len() == 0 {
        0
    } else {
        seq_sum(s.drop_last()) + s.last()
    }
}

/// Removing one amount takes exactly that amount out of the total.
pub proof fn lemma_seq_sum_remove(s: Seq<u128>, i: int)
    requires
        0 <= i < s.len(),
    ensures
        seq_sum(s.remove(i)) == seq_sum(s) - s[i],
    decreases s.len(),
{
    if i == s.len() - 1 {
        assert(s.remove(i) =~= s.drop_last());
    } else {
        let t = s.drop_last();
        s.remove_ensures(i);
        assert(s.remove(i).drop_last() =~= t.remove(i));
        assert(s.remove(i).last() == s.last());
        lemma_seq_sum_remove(t, i);
    }
}

/// Updating one amount shifts the total by the difference.
pub proof fn lemma_seq_sum_update(s: Seq<u128>, i: int, v: u128)
    requires
        0 <= i < s.len(),
    ensures
        seq_sum(s.update(i, v)) == seq_sum(s) - s[i] + v,
    decreases s.len(),
{
    if i == s.len() - 1 {
        assert(s.update(i, v).drop_last() =~= s.drop_last());
        assert(s.update(i, v).last() == v);
    } else {
        assert(s.update(i, v).drop_last() =~= s.drop_last().update(i, v));
        assert(s.update(i, v).last() == s.last());
        lemma_seq_sum_update(s.drop_last(), i, v);
    }
}

/// Compaction splits a batch of amounts exactly: what is removed and what
/// stays together sum to the whole.
pub proof fn lemma_seq_sum_split(s: Seq<u128>, idxs: Seq<usize>)
    requires
        sorted_strict(idxs),
        all_below(idxs, s.len() as int),
    ensures
        seq_sum(remove_idxs(s, idxs)) + seq_sum(picked(s, idxs)) == seq_sum(s),
    decreases idxs.len(),
{
    if idxs.len() == 0 {
        assert(picked(s, idxs) =~= Seq::<u128>::empty());
    } else {
        let l = idxs.last() as int;
        let dl = idxs.drop_last();
        s.remove_ensures(l);
        lemma_seq_sum_split(s.remove(l), dl);
        assert(picked(s.remove(l), dl) =~= picked(s, dl));
        lemma_seq_sum_remove(s, l);
        assert(picked(s, idxs).drop_last() =~= picked(s, dl));
        assert(picked(s, idxs).last() == s[l]);
    }
}

/// A sum of non-negative amounts dominates each of its prefixes.
pub proof fn lemma_seq_sum_bounds(s: Seq<u128>)
    ensures
        seq_sum(s) >= 0,
        forall|k: int| 0 <= k <= s.len() ==> #[trigger] seq_sum(s.take(k)) <= seq_sum(s),
    decreases s.len(),
{
    if s.len() == 0 {
        assert forall|k: int| 0 <= k <= s.len() implies #[trigger] seq_sum(s.take(k)) <= seq_sum(s) by {
            assert(s.take(k) =~= s);
        };
    } else {
        lemma_seq_sum_bounds(s.drop_last());
        assert forall|k: int| 0 <= k <= s.len() implies #[trigger] seq_sum(s.take(k)) <= seq_sum(s) by {
            if k == s.len() {
                assert(s.take(k) =~= s);
            } else {
                assert(s.take(k) =~= s.drop_last().take(k));
            }
        };
    }
}

} // verus!
