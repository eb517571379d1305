//! Grouping of priced lines by vendor, in order of first appearance, with the
//! sum of each vendor's line totals.

use vstd::prelude::*;

verus! {

/// The sum of the amounts of a sequence of (vendor, amount) pairs.
pub open spec fn sum_of(p: Seq<(i32, int)>) -> int
    decreases p.len(),
{
    if p.len() == 0 {
        0
    } else {
        sum_of(p.drop_last()) + p.last().1
    }
}

pub open spec fn nonneg(p: Seq<(i32, int)>) -> bool {
    forall|i: int| 0 <= i < p.len() ==> p[i].1 >= 0
}

pub open spec fn distinct_vendors(g: Seq<(i32, int)>) -> bool {
    forall|i: int, j: int| 0 <= i < j < g.len() ==> g[i].0 != g[j].0
}

/// The position of a vendor's group.
pub open spec fn group_index(g: Seq<(i32, int)>, v: i32) -> Option<int> {
    if exists|i: int| 0 <= i < g.len() && g[i].0 == v {
        Some(choose|i: int| 0 <= i < g.len() && g[i].0 == v)
    } else {
        None
    }
}

/// One group per distinct vendor, in order of first appearance, holding the
/// sum of that vendor's amounts.
pub open spec fn groups_of(p: Seq<(i32, int)>) -> Seq<(i32, int)>
    decreases p.len(),
{
    if p.len() == 0 {
        Seq::empty()
    } else {
        let g = groups_of(p.drop_last());
        let (v, t) = p.last();
        match group_index(g, v) {
            Some(j) => g.update(j, (v, g[j].1 + t)),
            None => g.push((v, t)),
        }
    }
}

pub proof fn lemma_sum_push(g: Seq<(i32, int)>, x: (i32, int))
    ensures
        sum_of(g.push(x)) == sum_of(g) + x.1,
{
    assert(g.push(x).drop_last() =~= g);
}

pub proof fn lemma_sum_update(g: Seq<(i32, int)>, j: int, w: i32, t: int)
    requires
        0 <= j < g.len(),
    ensures
        sum_of(g.update(j, (w, g[j].1 + t))) == sum_of(g) + t,
    decreases g.len(),
{
    let x = (w, g[j].1 + t);
    if j == g.len() - 1 {
        assert(g.update(j, x).drop_last() =~= g.drop_last());
    } else {
        lemma_sum_update(g.drop_last(), j, w, t);
        assert(g.update(j, x).drop_last() =~= g.drop_last().update(j, x));
    }
}

/// Each entry of non-negative amounts is at most their sum.
pub proof fn lemma_entry_le_sum(g: Seq<(i32, int)>, j: int)
    requires
        nonneg(g),
        0 <= j < g.len(),
    ensures
        0 <= g[j].1 <= sum_of(g),
    decreases g.len(),
{
    lemma_sum_nonneg(g.drop_last());
    if j < g.len() - 1 {
        lemma_entry_le_sum(g.drop_last(), j);
    }
}

pub proof fn lemma_sum_nonneg(g: Seq<(i32, int)>)
    requires
        nonneg(g),
    ensures
        sum_of(g) >= 0,
    decreases g.len(),
{
    if g.len() > 0 {
        lemma_sum_nonneg(g.drop_last());
    }
}

/// A prefix of non-negative amounts sums to at most the whole.
pub proof fn lemma_prefix_sum_le(p: Seq<(i32, int)>, k: int)
    requires
        nonneg(p),
        0 <= k <= p.len(),
    ensures
        sum_of(p.take(k)) <= sum_of(p),
    decreases p.len(),
{
    if k == p.len() {
        assert(p.take(k) =~= p);
    } else {
        lemma_prefix_sum_le(p.drop_last(), k);
        assert(p.drop_last().take(k) =~= p.take(k));
    }
}

/// The groups have distinct vendors, keep the sum, stay non-negative, and
/// every vendor of the input has a group.
pub proof fn lemma_groups(p: Seq<(i32, int)>)
    ensures
        distinct_vendors(groups_of(p)),
        sum_of(groups_of(p)) == sum_of(p),
        nonneg(p) ==> nonneg(groups_of(p)),
        forall|k: int| 0 <= k < p.len() ==> #[trigger] group_index(groups_of(p), p[k].0) is Some,
        groups_of(p).len() <= p.len(),
    decreases p.len(),
{
    if p.len() > 0 {
        let q = p.drop_last();
        lemma_groups(q);
        let g = groups_of(q);
        let (v, t) = p.last();
        let h = groups_of(p);
        match group_index(g, v) {
            Some(j) => {
                assert(g[j].0 == v);
                lemma_sum_update(g, j, v, t);
                assert forall|k: int| 0 <= k < p.len() implies #[trigger] group_index(h, p[k].0) is Some by {
                    if k < p.len() - 1 {
                        assert(q[k] == p[k]);
                        assert(group_index(g, q[k].0) is Some);
                        let i = group_index(g, q[k].0)->Some_0;
                        assert(h[i].0 == p[k].0);
                    } else {
                        assert(h[j].0 == p[k].0);
                    }
                }
            },
            None => {
                lemma_sum_push(g, (v, t));
                assert forall|k: int| 0 <= k < p.len() implies #[trigger] group_index(h, p[k].0) is Some by {
                    if k < p.len() - 1 {
                        assert(q[k] == p[k]);
                        assert(group_index(g, q[k].0) is Some);
                        let i = group_index(g, q[k].0)->Some_0;
                        assert(h[i].0 == p[k].0);
                    } else {
                        assert(h[g.len() as int].0 == p[k].0);
                    }
                }
            },
        }
    }
}

/// Under distinct vendors, a group found by its vendor is the one that
/// `group_index` names.
pub proof fn lemma_group_index_unique(g: Seq<(i32, int)>, j: int)
    requires
        distinct_vendors(g),
        0 <= j < g.len(),
    ensures
        group_index(g, g[j].0) == Some(j),
{
    let v = g[j].0;
    let i = choose|i: int| 0 <= i < g.len() && g[i].0 == v;
}

} // verus!
