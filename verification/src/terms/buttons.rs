//! The button row and check boxes of the consent screens: which buttons,
//! where, and how they look.
use crate::terms::focus::Focus;
use vstd::prelude::*;

verus! {

/// Sum of a sequence of widths.
pub open spec fn sum_u16(s: Seq<u16>) -> int
    decreases s.len(),
{
    if s.len() == 0 {
        0
    } else {
        sum_u16(s.drop_last()) + s.last()
    }
}

/// Sum of the minimum widths at the indices `idx`.
pub open spec fn sum_at(min: Seq<u16>, idx: Seq<usize>) -> int
    decreases idx.len(),
{
    if idx.len() == 0 {
        0
    } else {
        sum_at(min, idx.drop_last()) + min[idx.last() as int]
    }
}

/// The indices of `idx` (in order) whose minimum exceeds the share `eq`.
pub open spec fn over_share(min: Seq<u16>, idx: Seq<usize>, eq: int) -> Seq<usize>
    decreases idx.len(),
{
    if idx.len() == 0 {
        idx
    } else {
        let pre = over_share(min, idx.drop_last(), eq);
        if min[idx.last() as int] > eq {
            pre.push(idx.last())
        } else {
            pre
        }
    }
}

/// The indices of `idx` (in order) whose minimum fits in the share `eq`.
pub open spec fn within_share(min: Seq<u16>, idx: Seq<usize>, eq: int) -> Seq<usize>
    decreases idx.len(),
{
    if idx.len() == 0 {
        idx
    } else {
        let pre = within_share(min, idx.drop_last(), eq);
        if min[idx.last() as int] > eq {
            pre
        } else {
            pre.push(idx.last())
        }
    }
}

/// `w` with every index of `idx` set to its minimum.
pub open spec fn with_minimums(w: Seq<u16>, min: Seq<u16>, idx: Seq<usize>) -> Seq<u16>
    decreases idx.len(),
{
    if idx.len() == 0 {
        w
    } else {
        with_minimums(w, min, idx.drop_last()).update(idx.last() as int, min[idx.last() as int])
    }
}

/// `w` with the `k`-th index of `idx` set to `eq`, plus one for the first `r` of them.
pub open spec fn spread(w: Seq<u16>, idx: Seq<usize>, eq: int, r: int) -> Seq<u16>
    decreases idx.len(),
{
    if idx.len() == 0 {
        w
    } else {
        spread(w, idx.drop_last(), eq, r).update(
            idx.last() as int,
            (eq + if idx.len() - 1 < r {
                1int
            } else {
                0int
            }) as u16,
        )
    }
}

pub proof fn lemma_share_partition(min: Seq<u16>, idx: Seq<usize>, eq: int)
    ensures
        over_share(min, idx, eq).len() + within_share(min, idx, eq).len() == idx.len(),
        sum_at(min, over_share(min, idx, eq)) + sum_at(min, within_share(min, idx, eq)) == sum_at(
            min,
            idx,
        ),
    decreases idx.len(),
{
    if idx.len() > 0 {
        let x = idx.last();
        let o = over_share(min, idx.drop_last(), eq);
        let w = within_share(min, idx.drop_last(), eq);
        lemma_share_partition(min, idx.drop_last(), eq);
        assert(o.push(x).drop_last() == o);
        assert(w.push(x).drop_last() == w);
    }
}

proof fn lemma_sum_at_nonneg(min: Seq<u16>, idx: Seq<usize>)
    ensures
        sum_at(min, idx) >= 0,
    decreases idx.len(),
{
    if idx.len() > 0 {
        lemma_sum_at_nonneg(min, idx.drop_last());
    }
}

/// The rounds of the distribution: every index whose minimum exceeds the equal
/// share of the width still free gets its minimum, and the rest share again;
/// once no index exceeds its share, the free width is split evenly, the first
/// indices taking one extra column each for the remainder.
pub open spec fn width_rounds(min: Seq<u16>, rem: Seq<usize>, rw: int, w: Seq<u16>) -> Seq<u16>
    decreases rem.len(),
{
    if rem.len() == 0 {
        w
    } else {
        let eq = rw / (rem.len() as int);
        let c = over_share(min, rem, eq);
        if c.len() == 0 {
            spread(w, rem, eq, rw % (rem.len() as int))
        } else {
            proof {
                lemma_share_partition(min, rem, eq);
            }
            width_rounds(min, within_share(min, rem, eq), rw - sum_at(min, c), with_minimums(w, min, c))
        }
    }
}

/// The widths `compute_widths` gives the buttons with minimum widths `min` in
/// a row `area` columns wide.
pub open spec fn layout_widths(min: Seq<u16>, area: u16) -> Seq<u16> {
    width_rounds(
        min,
        Seq::new(min.len(), |i: int| i as usize),
        area as int,
        Seq::new(min.len(), |i: int| 0u16),
    )
}

proof fn lemma_sum_at_split(min: Seq<u16>, s: Seq<usize>, k: int)
    requires
        0 <= k <= s.len(),
    ensures
        sum_at(min, s) == sum_at(min, s.subrange(0, k)) + sum_at(min, s.subrange(k, s.len() as int)),
    decreases s.len(),
{
    if k == s.len() {
        assert(s.subrange(0, k) == s);
        assert(s.subrange(k, s.len() as int) =~= Seq::<usize>::empty());
    } else {
        lemma_sum_at_split(min, s.drop_last(), k);
        assert(s.drop_last().subrange(0, k) == s.subrange(0, k));
        assert(s.subrange(k, s.len() as int).drop_last() == s.drop_last().subrange(
            k,
            s.drop_last().len() as int,
        ));
    }
}

proof fn lemma_sum_at_first(min: Seq<u16>, s: Seq<usize>)
    requires
        s.len() > 0,
    ensures
        sum_at(min, s) == min[s[0] as int] + sum_at(min, s.subrange(1, s.len() as int)),
{
    lemma_sum_at_split(min, s, 1);
    assert(s.subrange(0, 1).drop_last() =~= Seq::<usize>::empty());
    assert(s.subrange(0, 1).last() == s[0]);
    assert(sum_at(min, s.subrange(0, 1).drop_last()) == 0);
    assert(sum_at(min, s.subrange(0, 1)) == min[s[0] as int]);
}

proof fn lemma_sum_at_identity(min: Seq<u16>, k: int)
    requires
        0 <= k <= min.len(),
        k <= usize::MAX,
    ensures
        sum_at(min, Seq::new(k as nat, |i: int| i as usize)) == sum_u16(min.subrange(0, k)),
    decreases k,
{
    if k > 0 {
        lemma_sum_at_identity(min, k - 1);
        assert(Seq::new(k as nat, |i: int| i as usize).drop_last() =~= Seq::new(
            (k - 1) as nat,
            |i: int| i as usize,
        ));
        assert(min.subrange(0, k).drop_last() =~= min.subrange(0, k - 1));
    }
}

/// Indices strictly increasing and below `n`.
pub open spec fn index_set(rem: Seq<usize>, n: int) -> bool {
    &&& forall|a: int| 0 <= a < rem.len() ==> rem[a] < n
    &&& forall|a: int, b: int| 0 <= a < b < rem.len() ==> rem[a] < rem[b]
}

proof fn lemma_update_sum(s: Seq<u16>, i: int, v: u16)
    requires
        0 <= i < s.len(),
    ensures
        sum_u16(s.update(i, v)) == sum_u16(s) - s[i] + v,
    decreases s.len(),
{
    if i < s.len() - 1 {
        lemma_update_sum(s.drop_last(), i, v);
        assert(s.update(i, v).drop_last() =~= s.drop_last().update(i, v));
    } else {
        assert(s.update(i, v).drop_last() =~= s.drop_last());
    }
}

proof fn lemma_index_set_drop_last(idx: Seq<usize>, n: int)
    requires
        index_set(idx, n),
        idx.len() > 0,
    ensures
        index_set(idx.drop_last(), n),
        !idx.drop_last().contains(idx.last()),
{
    if idx.drop_last().contains(idx.last()) {
        let a = choose|a: int| 0 <= a < idx.drop_last().len() && idx.drop_last()[a] == idx.last();
        assert(idx[a] < idx[idx.len() - 1]);
    }
}

proof fn lemma_with_minimums(w: Seq<u16>, min: Seq<u16>, idx: Seq<usize>, n: int)
    requires
        n <= usize::MAX,
        index_set(idx, n),
        w.len() == n,
        min.len() == n,
    ensures
        with_minimums(w, min, idx).len() == n,
        forall|j: int|
            0 <= j < n ==> #[trigger] with_minimums(w, min, idx)[j] == if idx.contains(j as usize) {
                min[j]
            } else {
                w[j]
            },
        (forall|j: int| 0 <= j < n && idx.contains(j as usize) ==> w[j] == 0) ==> sum_u16(
            with_minimums(w, min, idx),
        ) == sum_u16(w) + sum_at(min, idx),
    decreases idx.len(),
{
    if idx.len() > 0 {
        let pre = idx.drop_last();
        let x = idx.last();
        lemma_index_set_drop_last(idx, n);
        lemma_with_minimums(w, min, pre, n);
        let r = with_minimums(w, min, pre);
        assert forall|j: int| 0 <= j < n implies #[trigger] with_minimums(w, min, idx)[j] == if idx.contains(j as usize) {
            min[j]
        } else {
            w[j]
        } by {
            if j == x as int {
                assert(idx[idx.len() - 1] == x);
            } else {
                assert(r[j] == with_minimums(w, min, idx)[j]);
                if pre.contains(j as usize) {
                    let a = choose|a: int| 0 <= a < pre.len() && pre[a] == j as usize;
                    assert(idx[a] == j as usize);
                }
                if idx.contains(j as usize) {
                    let a = choose|a: int| 0 <= a < idx.len() && idx[a] == j as usize;
                    assert(pre[a] == j as usize);
                }
            }
        }
        if forall|j: int| 0 <= j < n && idx.contains(j as usize) ==> w[j] == 0 {
            assert forall|j: int| 0 <= j < n && pre.contains(j as usize) implies w[j] == 0 by {
                let a = choose|a: int| 0 <= a < pre.len() && pre[a] == j as usize;
                assert(idx[a] == j as usize);
            }
            assert(idx[idx.len() - 1] == x);
            assert(r[x as int] == w[x as int]);
            lemma_update_sum(r, x as int, min[x as int]);
        }
    }
}

proof fn lemma_spread(w: Seq<u16>, idx: Seq<usize>, eq: int, r: int, n: int)
    requires
        n <= usize::MAX,
        index_set(idx, n),
        w.len() == n,
        0 <= eq <= u16::MAX,
        r > 0 ==> eq + 1 <= u16::MAX,
        0 <= r,
    ensures
        spread(w, idx, eq, r).len() == n,
        forall|t: int|
            0 <= t < idx.len() ==> #[trigger] spread(w, idx, eq, r)[idx[t] as int] == eq + if t < r {
                1int
            } else {
                0int
            },
        forall|j: int| 0 <= j < n && !idx.contains(j as usize) ==> #[trigger] spread(w, idx, eq, r)[j] == w[j],
        (forall|j: int| 0 <= j < n && idx.contains(j as usize) ==> w[j] == 0) ==> sum_u16(
            spread(w, idx, eq, r),
        ) == sum_u16(w) + idx.len() * eq + if r < idx.len() {
            r
        } else {
            idx.len() as int
        },
    decreases idx.len(),
{
    if idx.len() > 0 {
        let pre = idx.drop_last();
        let x = idx.last();
        let m = idx.len() - 1;
        lemma_index_set_drop_last(idx, n);
        lemma_spread(w, pre, eq, r, n);
        let s0 = spread(w, pre, eq, r);
        assert forall|t: int| 0 <= t < idx.len() implies #[trigger] spread(w, idx, eq, r)[idx[t] as int] == eq + if t < r {
            1int
        } else {
            0int
        } by {
            if t < m {
                assert(idx[t] < idx[m]);
                assert(pre[t] == idx[t]);
            }
        }
        assert forall|j: int| 0 <= j < n && !idx.contains(j as usize) implies #[trigger] spread(w, idx, eq, r)[j] == w[j] by {
            assert(idx[m] == x);
            if pre.contains(j as usize) {
                let a = choose|a: int| 0 <= a < pre.len() && pre[a] == j as usize;
                assert(idx[a] == j as usize);
            }
        }
        if forall|j: int| 0 <= j < n && idx.contains(j as usize) ==> w[j] == 0 {
            assert forall|j: int| 0 <= j < n && pre.contains(j as usize) implies w[j] == 0 by {
                let a = choose|a: int| 0 <= a < pre.len() && pre[a] == j as usize;
                assert(idx[a] == j as usize);
            }
            assert(idx[m] == x);
            assert(s0[x as int] == w[x as int]);
            lemma_update_sum(s0, x as int, (eq + if m < r { 1int } else { 0int }) as u16);
            assert(idx.len() * eq == pre.len() * eq + eq) by (nonlinear_arith)
                requires
                    idx.len() == pre.len() + 1,
            ;
        }
    }
}

proof fn lemma_share_members(min: Seq<u16>, idx: Seq<usize>, eq: int, n: int)
    requires
        n <= usize::MAX,
        index_set(idx, n),
        min.len() == n,
    ensures
        index_set(over_share(min, idx, eq), n),
        index_set(within_share(min, idx, eq), n),
        forall|x: usize|
            #[trigger] over_share(min, idx, eq).contains(x) <==> (idx.contains(x) && min[x as int] > eq),
        forall|x: usize|
            #[trigger] within_share(min, idx, eq).contains(x) <==> (idx.contains(x) && min[x as int]
                <= eq),
    decreases idx.len(),
{
    if idx.len() > 0 {
        let pre = idx.drop_last();
        let x = idx.last();
        lemma_index_set_drop_last(idx, n);
        lemma_share_members(min, pre, eq, n);
        let o = over_share(min, pre, eq);
        let w = within_share(min, pre, eq);
        assert(idx[idx.len() - 1] == x);
        assert forall|y: usize| #[trigger] idx.contains(y) <==> (pre.contains(y) || y == x) by {
            if idx.contains(y) {
                let a = choose|a: int| 0 <= a < idx.len() && idx[a] == y;
                if a < idx.len() - 1 {
                    assert(pre[a] == y);
                }
            }
            if pre.contains(y) {
                let a = choose|a: int| 0 <= a < pre.len() && pre[a] == y;
                assert(idx[a] == y);
            }
        }
        assert forall|a: int| 0 <= a < o.len() implies o[a] < x by {
            assert(o.contains(o[a]));
            let b = choose|b: int| 0 <= b < pre.len() && pre[b] == o[a];
            assert(idx[b] < idx[idx.len() - 1]);
        }
        assert forall|a: int| 0 <= a < w.len() implies w[a] < x by {
            assert(w.contains(w[a]));
            let b = choose|b: int| 0 <= b < pre.len() && pre[b] == w[a];
            assert(idx[b] < idx[idx.len() - 1]);
        }
        assert(o.push(x).last() == x);
        assert(w.push(x).last() == x);
        assert forall|y: usize| #[trigger] o.push(x).contains(y) <==> (o.contains(y) || y == x) by {
            if o.push(x).contains(y) {
                let a = choose|a: int| 0 <= a < o.push(x).len() && o.push(x)[a] == y;
                if a < o.len() {
                    assert(o[a] == y);
                }
            }
            if o.contains(y) {
                let a = choose|a: int| 0 <= a < o.len() && o[a] == y;
                assert(o.push(x)[a] == y);
            }
            if y == x {
                assert(o.push(x)[o.len() as int] == y);
            }
        }
        assert forall|y: usize| #[trigger] w.push(x).contains(y) <==> (w.contains(y) || y == x) by {
            if w.push(x).contains(y) {
                let a = choose|a: int| 0 <= a < w.push(x).len() && w.push(x)[a] == y;
                if a < w.len() {
                    assert(w[a] == y);
                }
            }
            if w.contains(y) {
                let a = choose|a: int| 0 <= a < w.len() && w[a] == y;
                assert(w.push(x)[a] == y);
            }
            if y == x {
                assert(w.push(x)[w.len() as int] == y);
            }
        }
    }
}

/// The buttons over the share need more than one column past it each.
proof fn lemma_over_share_sum(min: Seq<u16>, idx: Seq<usize>, eq: int)
    requires
        eq >= 0,
    ensures
        sum_at(min, over_share(min, idx, eq)) >= over_share(min, idx, eq).len() * (eq + 1),
    decreases idx.len(),
{
    if idx.len() > 0 {
        lemma_over_share_sum(min, idx.drop_last(), eq);
        let o = over_share(min, idx.drop_last(), eq);
        if min[idx.last() as int] > eq {
            let x = idx.last();
            assert(o.push(x).drop_last() == o);
            let l = o.len() as int;
            assert((l + 1) * (eq + 1) == l * (eq + 1) + (eq + 1)) by (nonlinear_arith);
        }
    }
}

proof fn lemma_rounds(min: Seq<u16>, rem: Seq<usize>, rw: int, w: Seq<u16>, area: int, n: int)
    requires
        n == min.len(),
        n <= usize::MAX,
        n == w.len(),
        index_set(rem, n),
        rem.len() <= n,
        0 <= sum_at(min, rem) <= rw <= u16::MAX,
        sum_u16(w) + rw == area,
        forall|j: int| 0 <= j < n && rem.contains(j as usize) ==> w[j] == 0,
        forall|j: int| 0 <= j < n && !rem.contains(j as usize) ==> w[j] == min[j],
    ensures
        width_rounds(min, rem, rw, w).len() == n,
        forall|j: int| 0 <= j < n ==> #[trigger] width_rounds(min, rem, rw, w)[j] >= min[j],
        sum_u16(width_rounds(min, rem, rw, w)) == area || width_rounds(min, rem, rw, w) == min,
        rem.len() > 0 ==> sum_u16(width_rounds(min, rem, rw, w)) == area,
    decreases rem.len(),
{
    let res = width_rounds(min, rem, rw, w);
    if rem.len() == 0 {
        assert(res =~= min);
    } else {
        let k = rem.len() as int;
        let eq = rw / k;
        let c = over_share(min, rem, eq);
        lemma_share_members(min, rem, eq, n);
        lemma_share_partition(min, rem, eq);
        assert(0 <= eq <= rw) by (nonlinear_arith)
            requires
                k >= 1,
                eq == rw / k,
                rw >= 0,
        ;
        if c.len() == 0 {
            let r = rw % k;
            assert(eq * k + r == rw && 0 <= r < k) by (nonlinear_arith)
                requires
                    k >= 1,
                    eq == rw / k,
                    r == rw % k,
            ;
            if k >= 2 {
                assert(eq * k >= eq * 2) by (nonlinear_arith)
                    requires
                        k >= 2,
                        eq >= 0,
                ;
            }
            assert(r > 0 ==> eq + 1 <= u16::MAX);
            lemma_spread(w, rem, eq, r, n);
            assert forall|j: int| 0 <= j < n implies #[trigger] res[j] >= min[j] by {
                if rem.contains(j as usize) {
                    let t = choose|t: int| 0 <= t < rem.len() && rem[t] == j as usize;
                    assert(res[rem[t] as int] >= eq);
                    if min[j] > eq {
                        assert(c.contains(j as usize));
                        assert(c[0] == c[0]);
                    }
                }
            }
            assert(k * eq == eq * k) by (nonlinear_arith);
        } else {
            let nrem = within_share(min, rem, eq);
            lemma_over_share_sum(min, rem, eq);
            if nrem.len() == 0 {
                assert(c.len() == k);
                assert(rw < k * (eq + 1)) by (nonlinear_arith)
                    requires
                        k >= 1,
                        eq == rw / k,
                        rw >= 0,
                ;
                assert(sum_at(min, nrem) == 0);
            }
            let nw = with_minimums(w, min, c);
            lemma_with_minimums(w, min, c, n);
            assert forall|j: int| 0 <= j < n && c.contains(j as usize) implies w[j] == 0 by {}
            assert forall|j: int| 0 <= j < n && nrem.contains(j as usize) implies nw[j] == 0 by {
                assert(!c.contains(j as usize));
            }
            assert forall|j: int| 0 <= j < n && !nrem.contains(j as usize) implies nw[j] == min[j] by {
                if rem.contains(j as usize) {
                    assert(c.contains(j as usize));
                }
            }
            lemma_sum_at_nonneg(min, nrem);
            lemma_sum_at_nonneg(min, c);
            lemma_rounds(min, nrem, rw - sum_at(min, c), nw, area, n);
        }
    }
}

/// Every button gets at least its minimum width, and the widths fill the row
/// exactly unless every button got just its minimum.
pub proof fn lemma_layout_widths(min: Seq<u16>, area: u16)
    requires
        min.len() <= usize::MAX,
        sum_u16(min) <= area,
    ensures
        layout_widths(min, area).len() == min.len(),
        forall|i: int| 0 <= i < min.len() ==> #[trigger] layout_widths(min, area)[i] >= min[i],
        sum_u16(layout_widths(min, area)) == area || layout_widths(min, area) == min,
        min.len() > 0 ==> sum_u16(layout_widths(min, area)) == area,
{
    let n = min.len() as int;
    let rem = Seq::new(min.len(), |i: int| i as usize);
    let w = Seq::new(min.len(), |i: int| 0u16);
    lemma_sum_at_identity(min, n);
    assert(min.subrange(0, n) == min);
    assert forall|j: int| 0 <= j < n implies #[trigger] rem.contains(j as usize) by {
        assert(rem[j] == j as usize);
    }
    assert(sum_u16(w) == 0) by {
        lemma_sum_zero(w);
    }
    lemma_sum_at_nonneg(min, rem);
    lemma_rounds(min, rem, area as int, w, area as int, n);
}

proof fn lemma_sum_zero(w: Seq<u16>)
    requires
        forall|j: int| 0 <= j < w.len() ==> w[j] == 0,
    ensures
        sum_u16(w) == 0,
    decreases w.len(),
{
    if w.len() > 0 {
        lemma_sum_zero(w.drop_last());
    }
}

/// Splits `area_width` columns among buttons with the given minimum widths:
/// buttons that need more than an equal share get their minimum, the others
/// share what is left evenly.
pub fn compute_widths(area_width: u16, min_widths: &[u16]) -> (widths: Vec<u16>)
    requires
        min_widths@.len() <= u16::MAX,
        sum_u16(min_widths@) <= area_width,
    ensures
        widths@ == layout_widths(min_widths@, area_width),
        widths@.len() == min_widths@.len(),
        forall|i: int| 0 <= i < widths@.len() ==> #[trigger] widths@[i] >= min_widths@[i],
        min_widths@.len() > 0 ==> sum_u16(widths@) == area_width,
        min_widths@.len() == 0 ==> widths@ == min_widths@,
{
    proof {
        lemma_layout_widths(min_widths@, area_width);
    }
    distribute(area_width, min_widths)
}

fn distribute(area_width: u16, min_widths: &[u16]) -> (widths: Vec<u16>)
    requires
        min_widths@.len() <= u16::MAX,
        sum_u16(min_widths@) <= area_width,
    ensures
        widths@ == layout_widths(min_widths@, area_width),
{
    let n = min_widths.len();
    let ghost min = min_widths@;
    let mut widths: Vec<u16> = vec![0; n];
    let mut remaining: Vec<usize> = Vec::new();
    let mut j: usize = 0;
    while j < n
        invariant
            j <= n,
            remaining@ == Seq::new(j as nat, |i: int| i as usize),
        decreases n - j,
    {
        remaining.push(j);
        assert(remaining@ =~= Seq::new((j + 1) as nat, |i: int| i as usize));
        j = j + 1;
    }
    let mut remaining_width: u16 = area_width;
    proof {
        assert(widths@ =~= Seq::new(n as nat, |i: int| 0u16));
        lemma_sum_at_identity(min, n as int);
        assert(min.subrange(0, n as int) == min);
    }
    while remaining.len() > 0
        invariant
            n == min.len(),
            min == min_widths@,
            n <= u16::MAX,
            widths@.len() == n,
            index_set(remaining@, n as int),
            remaining@.len() <= n,
            sum_at(min, remaining@) <= remaining_width,
            width_rounds(min, remaining@, remaining_width as int, widths@) == layout_widths(
                min,
                area_width,
            ),
        decreases remaining@.len(),
    {
        let count = remaining.len() as u16;
        assert(count as int == remaining@.len());
        let equal = remaining_width / count;
        let ghost rem = remaining@;
        let ghost rw0 = remaining_width as int;
        let ghost w0 = widths@;
        let mut clamped: Vec<usize> = Vec::new();
        let mut k: usize = 0;
        proof {
            lemma_sum_at_split(min, rem, 0);
            assert(rem.subrange(0, 0) =~= Seq::<usize>::empty());
            assert(rem.subrange(0, rem.len() as int) == rem);
        }
        while k < remaining.len()
            invariant
                n == min.len(),
                min == min_widths@,
                remaining@ == rem,
                index_set(rem, n as int),
                k <= rem.len(),
                equal as int == rw0 / (rem.len() as int),
                clamped@ == over_share(min, rem.subrange(0, k as int), equal as int),
                widths@ == with_minimums(w0, min, clamped@),
                remaining_width as int == rw0 - sum_at(min, clamped@),
                sum_at(min, clamped@) <= sum_at(min, rem.subrange(0, k as int)),
                sum_at(min, rem.subrange(0, k as int)) + sum_at(min, rem.subrange(k as int, rem.len() as int)) <= rw0,
                widths@.len() == n,
            decreases rem.len() - k,
        {
            let i = remaining[k];
            proof {
                lemma_sum_at_split(min, rem, k as int);
                lemma_sum_at_split(min, rem, k + 1);
                lemma_sum_at_first(min, rem.subrange(k as int, rem.len() as int));
                lemma_sum_at_nonneg(min, rem.subrange(k + 1, rem.len() as int));
                assert(rem.subrange(k as int, rem.len() as int).subrange(1, rem.len() - k) =~= rem.subrange(k + 1, rem.len() as int));
                assert(rem.subrange(0, k + 1).drop_last() == rem.subrange(0, k as int));
                assert(rem.subrange(0, k + 1).last() == i);
            }
            if min_widths[i] > equal {
                widths.set(i, min_widths[i]);
                remaining_width = remaining_width - min_widths[i];
                let ghost before = clamped@;
                clamped.push(i);
                assert(clamped@.drop_last() == before);
            }
            k = k + 1;
        }
        assert(rem.subrange(0, rem.len() as int) == rem);
        if clamped.len() == 0 {
            let r = remaining_width % count;
            let mut remainder = r;
            let mut k: usize = 0;
            while k < remaining.len()
                invariant
                    n == min.len(),
                    remaining@ == rem,
                    index_set(rem, n as int),
                    k <= rem.len(),
                    rem.len() == count,
                    count >= 1,
                    equal as int == remaining_width / count,
                    r == remaining_width % count,
                    remainder as int == if k < r { r - k } else { 0 },
                    widths@ == spread(w0, rem.subrange(0, k as int), equal as int, r as int),
                    widths@.len() == n,
                    w0.len() == n,
                decreases rem.len() - k,
            {
                let i = remaining[k];
                let extra: u16 = if remainder > 0 {
                    remainder = remainder - 1;
                    1
                } else {
                    0
                };
                assert(equal + extra <= u16::MAX) by (nonlinear_arith)
                    requires
                        extra <= 1,
                        extra == 1 ==> r >= 1,
                        r == remaining_width % count,
                        equal == remaining_width / count,
                        remaining_width <= u16::MAX,
                        count >= 1,
                ;
                widths.set(i, equal + extra);
                assert(rem.subrange(0, k + 1).drop_last() == rem.subrange(0, k as int));
                k = k + 1;
            }
            assert(rem.subrange(0, rem.len() as int) == rem);
            return widths;
        }
        let mut next: Vec<usize> = Vec::new();
        let mut k: usize = 0;
        while k < remaining.len()
            invariant
                n == min.len(),
                min == min_widths@,
                remaining@ == rem,
                index_set(rem, n as int),
                k <= rem.len(),
                next@ == within_share(min, rem.subrange(0, k as int), equal as int),
                index_set(next@, n as int),
                forall|a: int| 0 <= a < next@.len() && k < rem.len() ==> next@[a] < rem[k as int],
            decreases rem.len() - k,
        {
            let i = remaining[k];
            assert(rem.subrange(0, k + 1).drop_last() == rem.subrange(0, k as int));
            if min_widths[i] <= equal {
                next.push(i);
            }
            k = k + 1;
        }
        proof {
            lemma_share_partition(min, rem, equal as int);
        }
        remaining = next;
    }
    widths
}

/// How a button looks.
#[derive(Debug, Clone, Copy, PartialEq, Eq, Structural)]
pub enum ButtonLook {
    /// The focused cancel button: dark on red, bold.
    CancelFocused,
    /// The cancel button: red.
    Cancel,
    /// A focused button that can be used: dark on green, bold.
    GoFocused,
    /// A button that can be used: green.
    Go,
    /// A button that cannot be used now: grey.
    Off,
}

/// A button to draw: its label, its left column, its width and its look.
#[derive(Debug, Clone, Copy)]
pub struct ButtonPlan {
    pub label: &'static str,
    pub x: u16,
    pub width: u16,
    pub look: ButtonLook,
}

/// How a check box looks.
#[derive(Debug, Clone, Copy, PartialEq, Eq, Structural)]
pub enum BoxLook {
    /// Focused and usable: yellow and bold.
    Focused,
    /// Focused but not usable now: a grey box, a red bold label.
    Blocked,
    /// Not focused.
    Plain,
}

/// The box drawn before a check box's label.
pub open spec fn box_text(checked: bool) -> Seq<char> {
    if checked { "[x]"@ } else { "[ ]"@ }
}

/// The look of a check box.
pub open spec fn box_look(active: bool, allowed: bool) -> BoxLook {
    if active {
        if allowed { BoxLook::Focused } else { BoxLook::Blocked }
    } else {
        BoxLook::Plain
    }
}

/// The box of a check box and its look.
pub fn checkbox(checked: bool, active: bool, allowed: bool) -> (r: (&'static str, BoxLook))
    ensures
        r.0@ == box_text(checked),
        r.1 == box_look(active, allowed),
{
    let b = if checked {
        "[x]"
    } else {
        "[ ]"
    };
    let look = if active {
        if allowed {
            BoxLook::Focused
        } else {
            BoxLook::Blocked
        }
    } else {
        BoxLook::Plain
    };
    (b, look)
}

/// The left columns of buttons of the given widths laid out from `x`.
pub open spec fn button_columns(x: int, widths: Seq<u16>, i: int) -> int
    decreases i,
{
    if i <= 0 {
        x
    } else {
        button_columns(x, widths, i - 1) + widths[i - 1]
    }
}

/// The minimum width of a button: its label and a column on each side.
pub open spec fn min_width(label: Seq<char>) -> int {
    (label.len() + 2) as int
}

/// The look of a button of the update and first-start screens.
pub open spec fn look_of(button: Focus, focus: Focus, state: (bool, bool)) -> ButtonLook {
    let focused = focus == button;
    match button {
        Focus::Cancel => if focused { ButtonLook::CancelFocused } else { ButtonLook::Cancel },
        Focus::Continue => if focused && state.0 {
            ButtonLook::GoFocused
        } else if state.0 {
            ButtonLook::Go
        } else {
            ButtonLook::Off
        },
        Focus::ContinueAll => if focused && state.1 {
            ButtonLook::GoFocused
        } else if state.1 {
            ButtonLook::Go
        } else {
            ButtonLook::Off
        },
        _ => ButtonLook::Off,
    }
}

/// The labels and elements of the buttons.
pub open spec fn button_row(update_needed: bool, downgrade: bool, tos_or_privacy: bool) -> Seq<
    (Seq<char>, Focus),
> {
    seq![
        (if update_needed { "[Q] Quit"@ } else { "[Q] Not now"@ }, Focus::Cancel),
        (if downgrade { "Downgrade"@ } else { "Continue"@ }, Focus::Continue),
    ] + if tos_or_privacy {
        seq![("Continue with Tensamin Services"@, Focus::ContinueAll)]
    } else {
        Seq::empty()
    }
}

/// The minimum widths of a row of buttons.
pub open spec fn row_minimums(row: Seq<(Seq<char>, Focus)>) -> Seq<u16> {
    row.map_values(|b: (Seq<char>, Focus)| min_width(b.0) as u16)
}

/// The buttons of a row as drawn on `area_width` columns from column
/// `area_x`: each label with its column, width and look.
pub open spec fn planned(
    row: Seq<(Seq<char>, Focus)>,
    looks: Seq<ButtonLook>,
    area_x: u16,
    area_width: u16,
) -> Seq<(Seq<char>, int, u16, ButtonLook)> {
    let widths = layout_widths(row_minimums(row), area_width);
    Seq::new(
        row.len(),
        |i: int| (row[i].0, button_columns(area_x as int, widths, i), widths[i], looks[i]),
    )
}

/// The models of planned buttons.
pub open spec fn plans_view(v: Seq<ButtonPlan>) -> Seq<(Seq<char>, int, u16, ButtonLook)> {
    v.map_values(|b: ButtonPlan| (b.label@, b.x as int, b.width, b.look))
}

/// Lays out a row of buttons with their looks.
pub(crate) fn plan_row(
    labels: &Vec<&'static str>,
    looks: &Vec<ButtonLook>,
    area_x: u16,
    area_width: u16,
    ghost_row: Ghost<Seq<(Seq<char>, Focus)>>,
) -> (r: Vec<ButtonPlan>)
    requires
        labels@.len() == ghost_row@.len() == looks@.len(),
        labels@.len() <= 3,
        forall|i: int| 0 <= i < labels@.len() ==> #[trigger] labels@[i]@ == ghost_row@[i].0,
        forall|i: int| 0 <= i < labels@.len() ==> #[trigger] labels@[i]@.len() <= 100,
        sum_u16(row_minimums(ghost_row@)) <= area_width,
        area_x + area_width <= u16::MAX,
    ensures
        plans_view(r@) == planned(ghost_row@, looks@, area_x, area_width),
{
    let ghost row = ghost_row@;
    let mut mins: Vec<u16> = Vec::new();
    let mut k: usize = 0;
    while k < labels.len()
        invariant
            k <= labels@.len(),
            labels@.len() == row.len(),
            forall|i: int| 0 <= i < labels@.len() ==> #[trigger] labels@[i]@ == row[i].0,
            forall|i: int| 0 <= i < labels@.len() ==> #[trigger] labels@[i]@.len() <= 100,
            mins@ == row_minimums(row).take(k as int),
        decreases labels.len() - k,
    {
        let n = labels[k].unicode_len();
        assert(labels@[k as int]@ == row[k as int].0);
        mins.push((n + 2) as u16);
        assert(mins@ =~= row_minimums(row).take(k + 1));
        k = k + 1;
    }
    assert(mins@ =~= row_minimums(row));
    let widths = compute_widths(area_width, mins.as_slice());
    proof {
        lemma_layout_widths(mins@, area_width);
    }
    assert(widths@.skip(0) =~= widths@);
    assert(sum_u16(widths@) <= area_width);
    let mut plans: Vec<ButtonPlan> = Vec::new();
    let mut x: u16 = area_x;
    let mut i: usize = 0;
    while i < labels.len()
        invariant
            i <= labels@.len(),
            labels@.len() == row.len() == looks@.len() == widths@.len(),
            widths@ == layout_widths(row_minimums(row), area_width),
            forall|j: int| 0 <= j < labels@.len() ==> #[trigger] labels@[j]@ == row[j].0,
            x == button_columns(area_x as int, widths@, i as int),
            x + sum_u16(widths@.skip(i as int)) <= u16::MAX,
            plans_view(plans@) == planned(row, looks@, area_x, area_width).take(i as int),
        decreases labels.len() - i,
    {
        let w = widths[i];
        let ghost before = plans@;
        plans.push(ButtonPlan { label: labels[i], x, width: w, look: looks[i] });
        assert(plans_view(plans@) =~= plans_view(before).push((labels@[i as int]@, x as int, w, looks@[i as int])));
        assert(planned(row, looks@, area_x, area_width).take(i + 1) =~= planned(row, looks@, area_x, area_width).take(
            i as int,
        ).push(planned(row, looks@, area_x, area_width)[i as int]));
        proof {
            lemma_sum_skip(widths@, i as int);
            lemma_sum_nonneg(widths@.skip(i + 1));
        }
        x = x + w;
        i = i + 1;
    }
    assert(planned(row, looks@, area_x, area_width).take(i as int) =~= planned(row, looks@, area_x, area_width));
    plans
}

/// A sum of widths is not negative.
proof fn lemma_sum_nonneg(s: Seq<u16>)
    ensures
        sum_u16(s) >= 0,
    decreases s.len(),
{
    if s.len() > 0 {
        lemma_sum_nonneg(s.drop_last());
    }
}

/// The sum from position `i` splits off its first width.
proof fn lemma_sum_skip(w: Seq<u16>, i: int)
    requires
        0 <= i < w.len(),
    ensures
        sum_u16(w.skip(i)) == w[i] + sum_u16(w.skip(i + 1)),
    decreases w.len() - i,
{
    if i == w.len() - 1 {
        assert(w.skip(i).drop_last() =~= Seq::<u16>::empty());
        assert(w.skip(i + 1) =~= Seq::<u16>::empty());
    } else {
        lemma_sum_skip(w.drop_last(), i);
        assert(w.skip(i).drop_last() =~= w.drop_last().skip(i));
        assert(w.skip(i + 1).drop_last() =~= w.drop_last().skip(i + 1));
    }
}

/// The button row of the consent screens on `area_width` columns from
/// column `area_x`: Cancel, Continue, and the button for all documents when
/// those are offered; each usable as the ticked boxes allow.
pub fn draw_buttons(
    area_x: u16,
    area_width: u16,
    current_focus: Focus,
    state: (bool, bool),
    update_needed: bool,
    downgrade_scenario: bool,
    tos_or_privacy: bool,
) -> (r: Vec<ButtonPlan>)
    requires
        sum_u16(row_minimums(button_row(update_needed, downgrade_scenario, tos_or_privacy)))
            <= area_width,
        area_x + area_width <= u16::MAX,
    ensures
        plans_view(r@) == planned(
            button_row(update_needed, downgrade_scenario, tos_or_privacy),
            button_row(update_needed, downgrade_scenario, tos_or_privacy).map_values(
                |b: (Seq<char>, Focus)| look_of(b.1, current_focus, state),
            ),
            area_x,
            area_width,
        ),
{
    proof {
        reveal_strlit("[Q] Quit");
        reveal_strlit("[Q] Not now");
        reveal_strlit("Downgrade");
        reveal_strlit("Continue");
        reveal_strlit("Continue with Tensamin Services");
    }
    let ghost row = button_row(update_needed, downgrade_scenario, tos_or_privacy);
    let cancel_text = if update_needed {
        "[Q] Quit"
    } else {
        "[Q] Not now"
    };
    let continue_text = if downgrade_scenario {
        "Downgrade"
    } else {
        "Continue"
    };
    let mut labels = vec![cancel_text, continue_text];
    let mut looks = vec![
        look_for(Focus::Cancel, current_focus, state),
        look_for(Focus::Continue, current_focus, state),
    ];
    if tos_or_privacy {
        labels.push("Continue with Tensamin Services");
        looks.push(look_for(Focus::ContinueAll, current_focus, state));
    }
    assert(looks@ =~= row.map_values(|b: (Seq<char>, Focus)| look_of(b.1, current_focus, state)));
    plan_row(&labels, &looks, area_x, area_width, Ghost(row))
}

/// The look of a button.
pub fn look_for(button: Focus, focus: Focus, state: (bool, bool)) -> (r: ButtonLook)
    ensures
        r == look_of(button, focus, state),
{
    let focused = focus == button;
    match button {
        Focus::Cancel => if focused {
            ButtonLook::CancelFocused
        } else {
            ButtonLook::Cancel
        },
        Focus::Continue => if focused && state.0 {
            ButtonLook::GoFocused
        } else if state.0 {
            ButtonLook::Go
        } else {
            ButtonLook::Off
        },
        Focus::ContinueAll => if focused && state.1 {
            ButtonLook::GoFocused
        } else if state.1 {
            ButtonLook::Go
        } else {
            ButtonLook::Off
        },
        _ => ButtonLook::Off,
    }
}

} // verus!
