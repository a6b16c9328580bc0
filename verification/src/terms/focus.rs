//! Keyboard focus on the consent screens.
use vstd::prelude::*;

verus! {

/// An element of a consent screen that can hold the keyboard focus.
#[derive(Debug, Clone, Copy, PartialEq, Eq, Structural)]
pub enum Focus {
    Eula,
    Tos,
    Pp,
    Cancel,
    Continue,
    ContinueAll,
}

/// Index of the first occurrence of `f` in `order`, or -1.
pub open spec fn position(order: Seq<Focus>, f: Focus) -> int
    decreases order.len(),
{
    if order.len() == 0 {
        -1
    } else if position(order.drop_last(), f) >= 0 {
        position(order.drop_last(), f)
    } else if order.last() == f {
        order.len() - 1
    } else {
        -1
    }
}

/// Where `next` moves the focus: one step forward in `order`, wrapping
/// around; unchanged when `f` is not in `order`.
pub open spec fn next_in(order: Seq<Focus>, f: Focus) -> Focus {
    let p = position(order, f);
    if p < 0 {
        f
    } else {
        order[(p + 1) % (order.len() as int)]
    }
}

/// Where `prev` moves the focus: one step back in `order`, wrapping around;
/// unchanged when `f` is not in `order`.
pub open spec fn prev_in(order: Seq<Focus>, f: Focus) -> Focus {
    let p = position(order, f);
    if p < 0 {
        f
    } else if p == 0 {
        order[order.len() - 1]
    } else {
        order[p - 1]
    }
}

pub proof fn lemma_position(order: Seq<Focus>, f: Focus)
    ensures
        -1 <= position(order, f) < order.len(),
        position(order, f) >= 0 ==> order[position(order, f)] == f,
        position(order, f) >= 0 ==> forall|i: int| 0 <= i < position(order, f) ==> order[i] != f,
        position(order, f) < 0 ==> forall|i: int| 0 <= i < order.len() ==> order[i] != f,
    decreases order.len(),
{
    if order.len() > 0 {
        lemma_position(order.drop_last(), f);
        assert forall|i: int| 0 <= i < order.len() - 1 implies order[i] == order.drop_last()[i] by {}
    }
}

/// In an order where no element repeats, the position of each element is its index.
pub proof fn lemma_position_unique(order: Seq<Focus>, i: int)
    requires
        order.no_duplicates(),
        0 <= i < order.len(),
    ensures
        position(order, order[i]) == i,
{
    lemma_position(order, order[i]);
}

/// Moving the focus forward and then back returns it to where it was, and
/// so does moving back and then forward, in any order that lists no element
/// twice.
pub proof fn lemma_next_prev_inverse(order: Seq<Focus>, f: Focus)
    requires
        order.no_duplicates(),
    ensures
        prev_in(order, next_in(order, f)) == f,
        next_in(order, prev_in(order, f)) == f,
{
    lemma_position(order, f);
    let p = position(order, f);
    if p >= 0 {
        let n = order.len() as int;
        let q = (p + 1) % n;
        assert(0 <= q < n);
        lemma_position_unique(order, q);
        if p + 1 < n {
            assert(q == p + 1) by (nonlinear_arith)
                requires
                    q == (p + 1) % n,
                    0 <= p + 1 < n,
            ;
        } else {
            assert(q == 0) by (nonlinear_arith)
                requires
                    q == (p + 1) % n,
                    p + 1 == n,
                    n > 0,
            ;
        }
        let r = if p == 0 { n - 1 } else { p - 1 };
        lemma_position_unique(order, r);
        if p == 0 {
            assert((r + 1) % n == 0) by (nonlinear_arith)
                requires
                    r + 1 == n,
                    n > 0,
            ;
        } else {
            assert((r + 1) % n == p) by (nonlinear_arith)
                requires
                    r + 1 == p,
                    0 < p < n,
            ;
        }
    }
}

fn find(order: &[Focus], f: Focus) -> (r: Option<usize>)
    ensures
        r is None <==> position(order@, f) < 0,
        r matches Some(i) ==> i == position(order@, f) && i < order@.len(),
{
    proof {
        lemma_position(order@, f);
    }
    let mut i: usize = 0;
    while i < order.len()
        invariant
            i <= order@.len(),
            -1 <= position(order@, f) < order@.len(),
            position(order@, f) >= 0 ==> order@[position(order@, f)] == f && forall|j: int|
                0 <= j < position(order@, f) ==> order@[j] != f,
            position(order@, f) < 0 ==> forall|j: int| 0 <= j < order@.len() ==> order@[j] != f,
            forall|j: int| 0 <= j < i ==> order@[j] != f,
        decreases order@.len() - i,
    {
        if order[i] == f {
            return Some(i);
        }
        i = i + 1;
    }
    None
}

impl Focus {
    /// Moves the focus to the element after it in `order` (wrapping around);
    /// leaves it unchanged when it is not in `order`.
    pub fn next(&mut self, order: &[Focus])
        ensures
            *final(self) == next_in(order@, *old(self)),
    {
        if let Some(pos) = find(order, *self) {
            let len = order.len();
            assert(pos < len);
            let next_pos = (pos + 1) % order.len();
            *self = order[next_pos];
        }
    }

    /// Moves the focus to the element before it in `order` (wrapping around);
    /// leaves it unchanged when it is not in `order`.
    pub fn prev(&mut self, order: &[Focus])
        ensures
            *final(self) == prev_in(order@, *old(self)),
    {
        if let Some(pos) = find(order, *self) {
            let prev_pos = if pos == 0 {
                order.len() - 1
            } else {
                pos - 1
            };
            *self = order[prev_pos];
        }
    }
}

} // verus!
