//! The bounding volume hierarchy: a binary tree of boxes built by
//! recursively partitioning the primitive list along a randomly chosen
//! axis, queried through the enum's intersection dispatch.

use vstd::prelude::*;

use crate::aabb::{joint_max, joint_min, AABB};
use crate::axis::Axis;
use crate::fixed::Fixed;
use crate::hittable::{spec_bbox, Hittable};
use crate::hittable_list::HittableList;
use crate::rng_float::RngGen;
use crate::vec3::{v3, vec3f};

verus! {

/// One node: one or two children and a box covering them.  A subtree with
/// a single primitive keeps it as its only child.
#[derive(Debug)]
pub struct BvhNode {
    pub left: Box<Hittable>,
    pub right: Option<Box<Hittable>>,
    pub aabb: AABB,
}

/// The hierarchy over a whole scene; its root behaves like any other
/// primitive.
#[derive(Debug)]
pub struct BVH {
    pub root: BvhNode,
}

/// The componentwise union of two boxes, as the box constructor computes
/// it.
pub open spec fn joint_box_of(a: AABB, b: AABB) -> AABB {
    AABB {
        minimum: vec3f(joint_min(v3(a.minimum), v3(b.minimum))),
        maximum: vec3f(joint_max(v3(a.maximum), v3(b.maximum))),
    }
}

/// Every primitive in the list has a bounding box over the interval; a
/// primitive without one is a construction-time fault the builder rules
/// out.
pub open spec fn all_boxed(objs: Seq<Hittable>, t0: int, t1: int) -> bool {
    forall|i: int| 0 <= i < objs.len() ==> spec_bbox(#[trigger] objs[i], t0, t1) is Some
}

/// The structural invariant of a built hierarchy: every node's box is
/// exactly the union of its children's boxes (or the single child's box),
/// at the shutter interval the tree was built for.
pub open spec fn bvh_boxes_ok(h: Hittable, t0: int, t1: int) -> bool
    decreases h,
{
    match h {
        Hittable::Bvh(n) => {
            &&& bvh_boxes_ok(*n.left, t0, t1)
            &&& match n.right {
                Some(rc) => {
                    &&& bvh_boxes_ok(*rc, t0, t1)
                    &&& match (spec_bbox(*n.left, t0, t1), spec_bbox(*rc, t0, t1)) {
                        (Some(lb), Some(rb)) => n.aabb == joint_box_of(lb, rb),
                        _ => false,
                    }
                },
                None => spec_bbox(*n.left, t0, t1) == Some(n.aabb),
            }
        },
        _ => true,
    }
}

/// Every primitive of the list satisfies the hierarchy invariant (true
/// outright for anything but an already-built subtree).
pub open spec fn all_boxes_ok(objs: Seq<Hittable>, t0: int, t1: int) -> bool {
    forall|i: int| 0 <= i < objs.len() ==> bvh_boxes_ok(#[trigger] objs[i], t0, t1)
}

/// The primitives a subtree stores, in traversal order; anything that is
/// not a hierarchy node is a leaf.
pub open spec fn leaves(h: Hittable) -> Seq<Hittable>
    decreases h,
{
    match h {
        Hittable::Bvh(n) => leaves(*n.left) + (match n.right {
            Some(rc) => leaves(*rc),
            None => Seq::empty(),
        }),
        _ => seq![h],
    }
}

/// No element of the list is itself an already-built hierarchy: the
/// builder consumes plain primitives.
pub open spec fn no_subtrees(objs: Seq<Hittable>) -> bool {
    forall|i: int| 0 <= i < objs.len() ==> !((#[trigger] objs[i]) is Bvh)
}

/// Swapping a pair leaves its multiset unchanged.
proof fn lemma_pair_swap_multiset(x: Hittable, y: Hittable)
    ensures
        seq![x, y].to_multiset() == seq![y, x].to_multiset(),
{
    broadcast use vstd::multiset::group_multiset_axioms;

    assert(seq![x, y] =~= seq![x].push(y));
    assert(seq![y, x] =~= seq![y].push(x));
    assert(seq![x] =~= Seq::<Hittable>::empty().push(x));
    assert(seq![y] =~= Seq::<Hittable>::empty().push(y));
    vstd::seq_lib::to_multiset_build(seq![x], y);
    vstd::seq_lib::to_multiset_build(seq![y], x);
    vstd::seq_lib::to_multiset_build(Seq::<Hittable>::empty(), x);
    vstd::seq_lib::to_multiset_build(Seq::<Hittable>::empty(), y);
    let e = Seq::<Hittable>::empty().to_multiset();
    assert(e.insert(x).insert(y) =~= e.insert(y).insert(x));
}

/// The partition comparator's key: the minimum-corner coordinate of a
/// primitive's box along the axis.
pub open spec fn axis_key_of(o: Hittable, axis: Axis, t0: int, t1: int) -> int {
    match spec_bbox(o, t0, t1) {
        Some(b) => crate::axis::axis_component(b.minimum, axis).raw as int,
        None => 0,
    }
}

/// The list is ordered by the comparator key along the chosen axis.
pub open spec fn sorted_by_key(objs: Seq<Hittable>, axis: Axis, t0: int, t1: int) -> bool {
    forall|p: int, q: int|
        0 <= p < q < objs.len() ==> axis_key_of(#[trigger] objs[p], axis, t0, t1) <= axis_key_of(
            #[trigger] objs[q],
            axis,
            t0,
            t1,
        )
}

/// The minimum-corner coordinate of a primitive's box along an axis, the
/// partition comparator.
fn axis_key(o: &Hittable, axis: &Axis, time0: Fixed, time1: Fixed) -> (r: Fixed)
    requires
        spec_bbox(*o, time0.raw as int, time1.raw as int) is Some,
    ensures
        r.raw as int == axis_key_of(*o, *axis, time0.raw as int, time1.raw as int),
{
    match o.bounding_box(time0, time1) {
        Some(b) => b.min().axis(axis),
        None => {
            proof {
                assert(false);
            }
            Fixed::zero()
        },
    }
}

/// Order within a sifted prefix: everything except the sifted element (at
/// `j`) is pairwise ordered, the sifted element is below everything it
/// displaced, and its predecessor (if any) is not above it; together these
/// make the whole prefix ordered.
proof fn lemma_sift_sorted(objs: Seq<Hittable>, axis: Axis, t0: int, t1: int, i: int, j: int)
    requires
        0 <= j <= i < objs.len(),
        forall|p: int, q: int|
            0 <= p < q <= i && p != j && q != j ==> axis_key_of(#[trigger] objs[p], axis, t0, t1)
                <= axis_key_of(#[trigger] objs[q], axis, t0, t1),
        forall|q: int|
            j < q <= i ==> axis_key_of(objs[j], axis, t0, t1) <= axis_key_of(
                #[trigger] objs[q],
                axis,
                t0,
                t1,
            ),
        j > 0 ==> axis_key_of(objs[j - 1], axis, t0, t1) <= axis_key_of(objs[j], axis, t0, t1),
    ensures
        sorted_by_key(objs.subrange(0, i + 1), axis, t0, t1),
{
    let sub = objs.subrange(0, i + 1);
    assert forall|p: int, q: int|
        0 <= p < q < sub.len() implies axis_key_of(#[trigger] sub[p], axis, t0, t1) <= axis_key_of(
        #[trigger] sub[q],
        axis,
        t0,
        t1,
    ) by {
        assert(sub[p] == objs[p] && sub[q] == objs[q]);
        if q == j {
            if p < j - 1 {
                assert(axis_key_of(objs[p], axis, t0, t1) <= axis_key_of(
                    objs[j - 1],
                    axis,
                    t0,
                    t1,
                ));
            }
        } else if p == j {
        } else {
        }
    }
}

/// Insertion sort by the axis comparator.  The verified guarantees: the
/// list is permuted (its multiset of primitives is unchanged), ordered by
/// the comparator key, and every box stays present.
fn sort_by_axis(objs: &mut Vec<Hittable>, axis: &Axis, time0: Fixed, time1: Fixed)
    requires
        all_boxed(old(objs)@, time0.raw as int, time1.raw as int),
        all_boxes_ok(old(objs)@, time0.raw as int, time1.raw as int),
    ensures
        final(objs)@.len() == old(objs)@.len(),
        final(objs)@.to_multiset() == old(objs)@.to_multiset(),
        all_boxed(final(objs)@, time0.raw as int, time1.raw as int),
        all_boxes_ok(final(objs)@, time0.raw as int, time1.raw as int),
        no_subtrees(old(objs)@) ==> no_subtrees(final(objs)@),
        sorted_by_key(final(objs)@, *axis, time0.raw as int, time1.raw as int),
{
    if objs.len() <= 1 {
        return ;
    }
    let mut i: usize = 1;
    while i < objs.len()
        invariant
            1 <= i <= objs@.len(),
            objs@.len() == old(objs)@.len(),
            objs@.to_multiset() == old(objs)@.to_multiset(),
            all_boxed(objs@, time0.raw as int, time1.raw as int),
            all_boxes_ok(objs@, time0.raw as int, time1.raw as int),
            no_subtrees(old(objs)@) ==> no_subtrees(objs@),
            sorted_by_key(
                objs@.subrange(0, i as int),
                *axis,
                time0.raw as int,
                time1.raw as int,
            ),
        decreases objs@.len() - i,
    {
        proof {
            assert forall|p: int, q: int|
                0 <= p < q <= i && p != i && q != i implies axis_key_of(
                #[trigger] objs@[p],
                *axis,
                time0.raw as int,
                time1.raw as int,
            ) <= axis_key_of(#[trigger] objs@[q], *axis, time0.raw as int, time1.raw as int) by {
                let sub = objs@.subrange(0, i as int);
                assert(sub[p] == objs@[p] && sub[q] == objs@[q]);
            }
        }
        let mut j: usize = i;
        while j > 0
            invariant_except_break
                j <= i < objs@.len(),
                objs@.len() == old(objs)@.len(),
                objs@.to_multiset() == old(objs)@.to_multiset(),
                all_boxed(objs@, time0.raw as int, time1.raw as int),
                all_boxes_ok(objs@, time0.raw as int, time1.raw as int),
                no_subtrees(old(objs)@) ==> no_subtrees(objs@),
                forall|p: int, q: int|
                    0 <= p < q <= i && p != j && q != j ==> axis_key_of(
                        #[trigger] objs@[p],
                        *axis,
                        time0.raw as int,
                        time1.raw as int,
                    ) <= axis_key_of(
                        #[trigger] objs@[q],
                        *axis,
                        time0.raw as int,
                        time1.raw as int,
                    ),
                forall|q: int|
                    j < q <= i ==> axis_key_of(
                        objs@[j as int],
                        *axis,
                        time0.raw as int,
                        time1.raw as int,
                    ) <= axis_key_of(
                        #[trigger] objs@[q],
                        *axis,
                        time0.raw as int,
                        time1.raw as int,
                    ),
            ensures
                i < objs@.len(),
                objs@.len() == old(objs)@.len(),
                objs@.to_multiset() == old(objs)@.to_multiset(),
                all_boxed(objs@, time0.raw as int, time1.raw as int),
                all_boxes_ok(objs@, time0.raw as int, time1.raw as int),
                no_subtrees(old(objs)@) ==> no_subtrees(objs@),
                sorted_by_key(
                    objs@.subrange(0, i + 1),
                    *axis,
                    time0.raw as int,
                    time1.raw as int,
                ),
            decreases j,
        {
            let kc = axis_key(&objs[j], axis, time0, time1);
            let kp = axis_key(&objs[j - 1], axis, time0, time1);
            if kc.lt(kp) {
                let ghost before = objs@;
                let x = objs.remove(j);
                let ghost mid = objs@;
                objs.insert(j - 1, x);
                proof {
                    assert(objs@[j - 1] == before[j as int] && objs@[j as int] == before[j - 1]);
                    assert forall|t: int|
                        0 <= t < objs@.len() && t != j - 1 && t != j implies objs@[t] == before[t]
                    by {
                        if t < j - 1 {
                            assert(mid[t] == before[t]);
                        } else {
                            assert(mid[t - 1] == before[t]);
                        }
                    }
                    assert forall|k: int|
                        0 <= k < objs@.len() implies spec_bbox(
                        #[trigger] objs@[k],
                        time0.raw as int,
                        time1.raw as int,
                    ) is Some && bvh_boxes_ok(objs@[k], time0.raw as int, time1.raw as int) && (
                    no_subtrees(before) ==> !(objs@[k] is Bvh)) by {
                        assert(objs@[k] == before[k] || objs@[k] == before[j as int] || objs@[k]
                            == before[j - 1]);
                    }
                    broadcast use vstd::multiset::group_multiset_axioms;

                    vstd::seq_lib::to_multiset_remove(before, j as int);
                    vstd::seq_lib::to_multiset_insert(mid, j - 1, x);
                    assert(before.contains(x)) by {
                        assert(before[j as int] == x);
                    }
                    vstd::seq_lib::to_multiset_contains(before, x);
                    assert(objs@.to_multiset() =~= before.to_multiset());
                }
                j = j - 1;
            } else {
                proof {
                    lemma_sift_sorted(
                        objs@,
                        *axis,
                        time0.raw as int,
                        time1.raw as int,
                        i as int,
                        j as int,
                    );
                }
                break ;
            }
        }
        i = i + 1;
    }
    proof {
        assert(objs@.subrange(0, objs@.len() as int) =~= objs@);
    }
}

/// Build one subtree over the primitives, partitioning along a random
/// axis: one primitive becomes a single-child leaf, two are ordered by
/// the comparator, more are sorted and split at the midpoint.
fn build_node(objs: Vec<Hittable>, time0: Fixed, time1: Fixed, rng: &mut RngGen) -> (r: BvhNode)
    requires
        objs@.len() >= 1,
        all_boxed(objs@, time0.raw as int, time1.raw as int),
        all_boxes_ok(objs@, time0.raw as int, time1.raw as int),
        no_subtrees(objs@),
    ensures
        bvh_boxes_ok(Hittable::Bvh(r), time0.raw as int, time1.raw as int),
        spec_bbox(Hittable::Bvh(r), time0.raw as int, time1.raw as int) is Some,
        leaves(Hittable::Bvh(r)).to_multiset() == objs@.to_multiset(),
    decreases objs@.len(),
{
    let ghost input = objs@;
    let mut objs = objs;
    let axis = Axis::rand(rng);
    let n = objs.len();
    if n == 1 {
        let leaf = match objs.pop() {
            Some(x) => x,
            None => {
                proof {
                    assert(false);
                }
                Hittable::List(HittableList::new())
            },
        };
        let lb = match leaf.bounding_box(time0, time1) {
            Some(b) => b,
            None => {
                proof {
                    assert(false);
                }
                AABB::new(crate::vec3::Vec3::zero(), crate::vec3::Vec3::zero())
            },
        };
        let node = BvhNode { left: Box::new(leaf), right: None, aabb: lb };
        proof {
            reveal_with_fuel(leaves, 3);
            assert(!(leaf is Bvh)) by {
                assert(input[0] == leaf);
            }
            assert(leaves(Hittable::Bvh(node)) =~= input);
        }
        node
    } else if n == 2 {
        let x1 = match objs.pop() {
            Some(x) => x,
            None => {
                proof {
                    assert(false);
                }
                Hittable::List(HittableList::new())
            },
        };
        let x0 = match objs.pop() {
            Some(x) => x,
            None => {
                proof {
                    assert(false);
                }
                Hittable::List(HittableList::new())
            },
        };
        let k0 = axis_key(&x0, &axis, time0, time1);
        let k1 = axis_key(&x1, &axis, time0, time1);
        let (a, b) = if k0.lt(k1) {
            (x0, x1)
        } else {
            (x1, x0)
        };
        let ab = match a.bounding_box(time0, time1) {
            Some(bx) => bx,
            None => {
                proof {
                    assert(false);
                }
                AABB::new(crate::vec3::Vec3::zero(), crate::vec3::Vec3::zero())
            },
        };
        let bb = match b.bounding_box(time0, time1) {
            Some(bx) => bx,
            None => {
                proof {
                    assert(false);
                }
                AABB::new(crate::vec3::Vec3::zero(), crate::vec3::Vec3::zero())
            },
        };
        let aabb = AABB::joint_box(&ab, &bb);
        let node = BvhNode { left: Box::new(a), right: Some(Box::new(b)), aabb };
        proof {
            reveal_with_fuel(leaves, 3);
            assert(aabb == joint_box_of(ab, bb));
            assert(!(x0 is Bvh) && !(x1 is Bvh)) by {
                assert(input[0] == x0 && input[1] == x1);
            }
            assert(input =~= seq![x0, x1]);
            assert(leaves(Hittable::Bvh(node)) =~= seq![a, b]);
            if a == x0 && b == x1 {
                assert(seq![a, b] =~= input);
            } else {
                assert(seq![a, b] =~= seq![x1, x0]);
                lemma_pair_swap_multiset(x1, x0);
            }
            assert(leaves(Hittable::Bvh(node)).to_multiset() == input.to_multiset());
        }
        node
    } else {
        sort_by_axis(&mut objs, &axis, time0, time1);
        let ghost sorted = objs@;
        let mid = n / 2;
        let right_vec = objs.split_off(mid);
        proof {
            assert(all_boxed(objs@, time0.raw as int, time1.raw as int) && all_boxes_ok(
                objs@,
                time0.raw as int,
                time1.raw as int,
            ) && no_subtrees(objs@));
            assert(all_boxed(right_vec@, time0.raw as int, time1.raw as int) && all_boxes_ok(
                right_vec@,
                time0.raw as int,
                time1.raw as int,
            ) && no_subtrees(right_vec@));
            assert(sorted =~= objs@ + right_vec@);
            vstd::seq_lib::lemma_multiset_commutative(objs@, right_vec@);
        }
        let ghost left_in = objs@;
        let ghost right_in = right_vec@;
        let left_node = build_node(objs, time0, time1, rng);
        let right_node = build_node(right_vec, time0, time1, rng);
        let left = Hittable::Bvh(left_node);
        let right = Hittable::Bvh(right_node);
        let lb = match left.bounding_box(time0, time1) {
            Some(bx) => bx,
            None => {
                proof {
                    assert(false);
                }
                AABB::new(crate::vec3::Vec3::zero(), crate::vec3::Vec3::zero())
            },
        };
        let rb = match right.bounding_box(time0, time1) {
            Some(bx) => bx,
            None => {
                proof {
                    assert(false);
                }
                AABB::new(crate::vec3::Vec3::zero(), crate::vec3::Vec3::zero())
            },
        };
        let aabb = AABB::joint_box(&lb, &rb);
        let node = BvhNode { left: Box::new(left), right: Some(Box::new(right)), aabb };
        proof {
            reveal_with_fuel(leaves, 2);
            assert(aabb == joint_box_of(lb, rb));
            assert(leaves(Hittable::Bvh(node)) =~= leaves(left) + leaves(right));
            vstd::seq_lib::lemma_multiset_commutative(leaves(left), leaves(right));
            broadcast use vstd::multiset::group_multiset_axioms;

            assert(leaves(Hittable::Bvh(node)).to_multiset() =~= input.to_multiset());
        }
        node
    }
}

impl BVH {
    /// Build the hierarchy over the primitives of a list, which the
    /// construction consumes.  Every primitive must carry a bounding box;
    /// a scene that breaks that is rejected at this boundary rather than
    /// part-way through construction.
    pub fn new(list: &mut HittableList, time0: Fixed, time1: Fixed, rng: &mut RngGen) -> (r: BVH)
        requires
            old(list).objects@.len() >= 1,
            all_boxed(old(list).objects@, time0.raw as int, time1.raw as int),
            all_boxes_ok(old(list).objects@, time0.raw as int, time1.raw as int),
            no_subtrees(old(list).objects@),
        ensures
            bvh_boxes_ok(Hittable::Bvh(r.root), time0.raw as int, time1.raw as int),
            leaves(Hittable::Bvh(r.root)).to_multiset() == old(list).objects@.to_multiset(),
            final(list).objects@.len() == 0,
    {
        let mut objs: Vec<Hittable> = Vec::new();
        core::mem::swap(&mut objs, &mut list.objects);
        BVH { root: build_node(objs, time0, time1, rng) }
    }

    /// The hierarchy as a primitive, for the intersection dispatch.
    pub fn into_hittable(self) -> (h: Hittable)
        ensures
            h == Hittable::Bvh(self.root),
    {
        Hittable::Bvh(self.root)
    }
}

} // verus!
