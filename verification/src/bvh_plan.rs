//! How the bounding volume hierarchy divides its objects: one object is a
//! leaf duplicated on both sides, two objects are one leaf each, and more are
//! (after ordering along the longest axis) split into two halves that are
//! built recursively.

use vstd::prelude::*;

verus! {

/// How a BVH node is built from `count` objects.
#[derive(PartialEq, Eq, Structural, Clone, Copy, Debug)]
pub enum SplitPlan {
    /// One object: it is both children of the node.
    Single,
    /// Two objects: one child each.
    Pair,
    /// Three or more: the first `mid` objects (in axis order) form the left
    /// subtree and the rest the right subtree.
    Halves { mid: usize },
}

/// The plan for `count` objects.
pub open spec fn plan_of(count: nat) -> SplitPlan {
    if count == 1 {
        SplitPlan::Single
    } else if count == 2 {
        SplitPlan::Pair
    } else {
        SplitPlan::Halves { mid: (count / 2) as usize }
    }
}

/// The plan for building a BVH node over `count` objects. An empty list has
/// no plan (halving it would never end), so `count` must be at least one.
pub fn split_plan(count: usize) -> (p: SplitPlan)
    requires
        count >= 1,
    ensures
        p == plan_of(count as nat),
        p == SplitPlan::Single <==> count == 1,
        p == SplitPlan::Pair <==> count == 2,
        count >= 3 ==> p == (SplitPlan::Halves { mid: count / 2 }),
        p matches SplitPlan::Halves { mid } ==> 1 <= mid < count && count - mid < count,
        p matches SplitPlan::Halves { mid } ==> mid <= count - mid <= mid + 1,
{
    if count == 1 {
        SplitPlan::Single
    } else if count == 2 {
        SplitPlan::Pair
    } else {
        SplitPlan::Halves { mid: count / 2 }
    }
}

/// The number of objects a node's plan places in its subtrees.
pub open spec fn objects_placed(p: SplitPlan, count: nat) -> nat {
    match p {
        SplitPlan::Single => 1,
        SplitPlan::Pair => 2,
        SplitPlan::Halves { mid } => mid as nat + (count - mid) as nat,
    }
}

/// The plan of a node keeps every one of its objects: one object is a
/// leaf, two objects are two leaves, and three or more are split at
/// `count / 2` into two non-empty halves that together hold all of them.
pub proof fn lemma_plan_keeps_every_object(count: nat)
    requires
        count >= 1,
        count <= usize::MAX,
    ensures
        objects_placed(plan_of(count), count) == count,
        plan_of(count) == SplitPlan::Single <==> count == 1,
        plan_of(count) == SplitPlan::Pair <==> count == 2,
        count >= 3 ==> plan_of(count) == (SplitPlan::Halves { mid: (count / 2) as usize }),
        count >= 3 ==> (plan_of(count) matches SplitPlan::Halves { mid } && 1 <= mid < count),
{
}

/// `2^e`.
pub open spec fn two_pow(e: nat) -> nat
    decreases e,
{
    if e == 0 {
        1
    } else {
        2 * two_pow((e - 1) as nat)
    }
}

/// The number of node levels of the BVH that the split plan builds over
/// `count` objects (a node whose children are leaves is one level).
pub open spec fn plan_depth(count: nat) -> nat
    decreases count,
{
    if count <= 2 {
        1
    } else {
        let mid: nat = count / 2;
        let l: nat = plan_depth(mid);
        let r: nat = plan_depth((count - mid) as nat);
        1 + if l >= r { l } else { r }
    }
}

proof fn lemma_two_pow_monotone(a: nat, b: nat)
    requires
        a <= b,
    ensures
        two_pow(a) <= two_pow(b),
    decreases b,
{
    if a < b {
        lemma_two_pow_monotone(a, (b - 1) as nat);
    }
}

/// The split plan builds a balanced tree: over `count >= 2` objects its
/// depth `d` satisfies `2^(d-1) < count <= 2^d`, that is `d` is the ceiling of
/// `log2(count)`, so a ray visits logarithmically many levels.
pub proof fn lemma_plan_depth_logarithmic(count: nat)
    requires
        count >= 2,
    ensures
        plan_depth(count) >= 1,
        two_pow((plan_depth(count) - 1) as nat) < count <= two_pow(plan_depth(count)),
    decreases count,
{
    if count > 2 {
        let mid: nat = count / 2;
        let c: nat = (count - mid) as nat;
        let l: nat = plan_depth(mid);
        let r: nat = plan_depth(c);
        let d: nat = plan_depth(count);
        lemma_plan_depth_at_least_one(mid);
        lemma_upper(mid);
        lemma_upper(c);
        lemma_plan_depth_logarithmic(c);
        if l >= r {
            lemma_two_pow_monotone(r, l);
            if mid >= 2 {
                lemma_plan_depth_logarithmic(mid);
            } else {
                assert(l == 1);
            }
        } else {
            lemma_two_pow_monotone(l, r);
        }
    }
}

proof fn lemma_plan_depth_at_least_one(count: nat)
    ensures
        plan_depth(count) >= 1,
    decreases count,
{
    if count > 2 {
        lemma_plan_depth_at_least_one(count / 2);
    }
}

proof fn lemma_upper(count: nat)
    ensures
        count <= two_pow(plan_depth(count)),
    decreases count,
{
    lemma_plan_depth_at_least_one(count);
    if count > 2 {
        let mid: nat = count / 2;
        let c: nat = (count - mid) as nat;
        let l: nat = plan_depth(mid);
        let r: nat = plan_depth(c);
        lemma_upper(mid);
        lemma_upper(c);
        if l >= r {
            lemma_two_pow_monotone(r, l);
        } else {
            lemma_two_pow_monotone(l, r);
        }
    } else {
        assert(two_pow(0) == 1);
        assert(two_pow(1) == 2);
    }
}

} // verus!
