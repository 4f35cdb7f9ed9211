//! Octree broad-phase accelerator: a dormant, optional index over body
//! positions behind the same pair-enumeration interface, for use when the
//! body count makes all-pairs scanning a bottleneck.
//!
//! A node stores up to `capacity` body indices; an overflowing insert
//! subdivides the node into eight half-size octants and places the new
//! index in the octant containing its position.

use vstd::prelude::*;
use vstd::multiset::Multiset;
use crate::collision_box::BoundingBox;
use crate::collision_box::bbox_center_s;
use crate::collision_box::bbox_half_s;
use crate::collision_box::contains_s;
use crate::collision_box::intersects_s;
use crate::vec3::Vec3;
use crate::vec3::v3_add;
use crate::vec3::v3_add_s;

verus! {

pub struct Octree {
    pub boundary: BoundingBox,
    pub capacity: usize,
    pub bodies: Vec<usize>,
    pub children: Option<Box<OctreeChildren>>,
}

/// The eight octants of a subdivided node.
pub struct OctreeChildren {
    pub c0: Octree,
    pub c1: Octree,
    pub c2: Octree,
    pub c3: Octree,
    pub c4: Octree,
    pub c5: Octree,
    pub c6: Octree,
    pub c7: Octree,
}

/// Height of the tree: leaves have height zero.
pub open spec fn tree_height(o: Octree) -> nat
    decreases o,
{
    match o.children {
        Option::None => 0,
        Option::Some(ch) => {
            let h0 = tree_height(ch.c0);
            let h1 = tree_height(ch.c1);
            let h2 = tree_height(ch.c2);
            let h3 = tree_height(ch.c3);
            let h4 = tree_height(ch.c4);
            let h5 = tree_height(ch.c5);
            let h6 = tree_height(ch.c6);
            let h7 = tree_height(ch.c7);
            let m01 = if h0 >= h1 { h0 } else { h1 };
            let m23 = if h2 >= h3 { h2 } else { h3 };
            let m45 = if h4 >= h5 { h4 } else { h5 };
            let m67 = if h6 >= h7 { h6 } else { h7 };
            let m03 = if m01 >= m23 { m01 } else { m23 };
            let m47 = if m45 >= m67 { m45 } else { m67 };
            1 + (if m03 >= m47 { m03 } else { m47 })
        },
    }
}

/// All body indices stored in the tree, with multiplicity.
pub open spec fn tree_items(o: Octree) -> Multiset<usize>
    decreases o,
{
    match o.children {
        Option::None => o.bodies@.to_multiset(),
        Option::Some(ch) => o.bodies@.to_multiset().add(tree_items(ch.c0)).add(
            tree_items(ch.c1),
        ).add(tree_items(ch.c2)).add(tree_items(ch.c3)).add(tree_items(ch.c4)).add(
            tree_items(ch.c5),
        ).add(tree_items(ch.c6)).add(tree_items(ch.c7)),
    }
}

/// Lower corner offset of octant `k` (0..8) relative to the node center:
/// one half extent toward negative per axis whose bit of `k` is clear
/// (x from bit 0, y from bit 1, z from bit 2).
pub open spec fn child_offset_s(b: BoundingBox, k: int) -> Vec3 {
    let h = bbox_half_s(b);
    Vec3 {
        x: if k % 2 == 1 {
            0
        } else {
            crate::fx::fx_neg_s(h.x as int) as i64
        },
        y: if (k / 2) % 2 == 1 {
            0
        } else {
            crate::fx::fx_neg_s(h.y as int) as i64
        },
        z: if (k / 4) % 2 == 1 {
            0
        } else {
            crate::fx::fx_neg_s(h.z as int) as i64
        },
    }
}

/// Boundary of octant `k` (0..8) of a node: the eight octants tile the
/// node, each spanning one half extent per axis.
pub open spec fn child_boundary_s(b: BoundingBox, k: int) -> BoundingBox {
    let low = v3_add_s(bbox_center_s(b), child_offset_s(b, k));
    BoundingBox { min: low, max: v3_add_s(low, bbox_half_s(b)) }
}

/// The indices a range query reports: the stored indices of every node
/// whose boundary intersects the range, in depth-first order.
pub open spec fn query_s(o: Octree, range: BoundingBox) -> Seq<usize>
    decreases o,
{
    if !intersects_s(o.boundary, range) {
        Seq::empty()
    } else {
        match o.children {
            Option::None => o.bodies@,
            Option::Some(ch) => o.bodies@ + query_s(ch.c0, range) + query_s(ch.c1, range)
                + query_s(ch.c2, range) + query_s(ch.c3, range) + query_s(ch.c4, range)
                + query_s(ch.c5, range) + query_s(ch.c6, range) + query_s(ch.c7, range),
        }
    }
}

/// The indices stored strictly below a node.
pub open spec fn sub_items(o: Octree) -> Multiset<usize> {
    match o.children {
        Option::None => Multiset::<usize>::empty(),
        Option::Some(ch) => items_of8(*ch),
    }
}

/// A node's items are its own plus those of its octants.
pub proof fn lemma_tree_items_split(o: Octree)
    ensures
        tree_items(o) == o.bodies@.to_multiset().add(sub_items(o)),
{
    match o.children {
        Option::None => {
            assert(o.bodies@.to_multiset().add(Multiset::<usize>::empty()) =~= o
                .bodies@
                .to_multiset());
        },
        Option::Some(ch) => {
            assert(tree_items(o) =~= o.bodies@.to_multiset().add(items_of8(*ch)));
        },
    }
}

impl Octree {
    pub fn new(boundary: BoundingBox, capacity: usize) -> (r: Octree)
        ensures
            r.boundary == boundary,
            r.capacity == capacity,
            r.bodies@ == Seq::<usize>::empty(),
            r.children is None,
            tree_items(r) == Multiset::<usize>::empty(),
            tree_height(r) == 0,
    {
        let r = Octree { boundary, capacity, bodies: Vec::new(), children: None };
        proof {
            assert(r.bodies@ =~= Seq::<usize>::empty());
            r.bodies@.to_multiset_ensures();
            vstd::multiset::lemma_multiset_empty_len(r.bodies@.to_multiset());
            assert(r.bodies@.to_multiset() =~= Multiset::<usize>::empty());
        }
        r
    }

    /// Inserts a body index at a position.  Positions outside the node's
    /// boundary are rejected, leaving the tree untouched; a position in a
    /// node with spare capacity is always accepted, stored in that node;
    /// past capacity the index goes to the octant that contains the
    /// position (the node subdivides on first overflow).  The boundary and
    /// capacity never change, and the stored indices change exactly by the
    /// accepted index.
    pub fn insert(&mut self, index: usize, position: Vec3) -> (r: bool)
        ensures
            final(self).boundary == old(self).boundary,
            final(self).capacity == old(self).capacity,
            !contains_s(old(self).boundary, position) ==> !r && *final(self) == *old(self),
            contains_s(old(self).boundary, position) && old(self).bodies@.len() < old(
                self,
            ).capacity ==> r,
            r ==> tree_items(*final(self)) == tree_items(*old(self)).insert(index),
            !r ==> tree_items(*final(self)) == tree_items(*old(self)),
        decreases tree_height(*old(self)), 1int,
    {
        if !self.boundary.contains(position) {
            return false;
        }
        if self.bodies.len() < self.capacity {
            let ghost pre = self.bodies@;
            self.bodies.push(index);
            proof {
                pre.to_multiset_ensures();
                assert(self.bodies@.to_multiset() == pre.to_multiset().insert(index));
                match self.children {
                    Option::Some(_) => {
                        assert(tree_items(*self) =~= tree_items(*old(self)).insert(index));
                    },
                    Option::None => {},
                }
            }
            return true;
        }
        if self.capacity == 0 {
            // A zero-capacity node can never store anything.
            return false;
        }
        let ghost items_before = tree_items(*self);
        let ghost own = self.bodies@.to_multiset();
        let did_split = self.subdivide();
        proof {
            lemma_tree_items_split(*self);
            assert(tree_items(*self) == items_before);
        }
        let ghost sub_before = sub_items(*self);
        let r: bool;
        if did_split {
            // Freshly created octants are empty leaves; the index goes
            // directly into the one containing the position, if any.
            r = match &mut self.children {
                Option::Some(ch) => insert_into_fresh(ch, index, position),
                Option::None => false,
            };
        } else {
            r = match &mut self.children {
                Option::Some(ch) => {
                    proof {
                        assert(tree_height(ch.c0) < tree_height(*old(self)));
                        assert(tree_height(ch.c1) < tree_height(*old(self)));
                        assert(tree_height(ch.c2) < tree_height(*old(self)));
                        assert(tree_height(ch.c3) < tree_height(*old(self)));
                        assert(tree_height(ch.c4) < tree_height(*old(self)));
                        assert(tree_height(ch.c5) < tree_height(*old(self)));
                        assert(tree_height(ch.c6) < tree_height(*old(self)));
                        assert(tree_height(ch.c7) < tree_height(*old(self)));
                    }
                    insert_into_children(ch, index, position, Ghost(tree_height(*old(self))))
                },
                Option::None => false,
            };
        }
        proof {
            lemma_tree_items_split(*self);
            if r {
                assert(sub_items(*self) == sub_before.insert(index));
                assert(own.add(sub_before.insert(index)) =~= own.add(sub_before).insert(index));
                assert(tree_items(*self) == items_before.insert(index));
            } else {
                assert(sub_items(*self) == sub_before);
                assert(tree_items(*self) == items_before);
            }
        }
        r
    }

    /// Splits a leaf into eight empty octants; reports whether a split
    /// happened (a node with children is left alone).
    fn subdivide(&mut self) -> (r: bool)
        ensures
            final(self).boundary == old(self).boundary,
            final(self).capacity == old(self).capacity,
            final(self).bodies == old(self).bodies,
            tree_items(*final(self)) == tree_items(*old(self)),
            r <==> old(self).children is None,
            !r ==> *final(self) == *old(self),
            r ==> (match final(self).children {
                Option::Some(ch) => {
                    &&& ch.c0.children is None && ch.c0.bodies@.len() == 0 && ch.c0.capacity
                        == old(self).capacity
                    &&& ch.c1.children is None && ch.c1.bodies@.len() == 0 && ch.c1.capacity
                        == old(self).capacity
                    &&& ch.c2.children is None && ch.c2.bodies@.len() == 0 && ch.c2.capacity
                        == old(self).capacity
                    &&& ch.c3.children is None && ch.c3.bodies@.len() == 0 && ch.c3.capacity
                        == old(self).capacity
                    &&& ch.c4.children is None && ch.c4.bodies@.len() == 0 && ch.c4.capacity
                        == old(self).capacity
                    &&& ch.c5.children is None && ch.c5.bodies@.len() == 0 && ch.c5.capacity
                        == old(self).capacity
                    &&& ch.c6.children is None && ch.c6.bodies@.len() == 0 && ch.c6.capacity
                        == old(self).capacity
                    &&& ch.c7.children is None && ch.c7.bodies@.len() == 0 && ch.c7.capacity
                        == old(self).capacity
                    &&& ch.c0.boundary == child_boundary_s(old(self).boundary, 0)
                    &&& ch.c1.boundary == child_boundary_s(old(self).boundary, 1)
                    &&& ch.c2.boundary == child_boundary_s(old(self).boundary, 2)
                    &&& ch.c3.boundary == child_boundary_s(old(self).boundary, 3)
                    &&& ch.c4.boundary == child_boundary_s(old(self).boundary, 4)
                    &&& ch.c5.boundary == child_boundary_s(old(self).boundary, 5)
                    &&& ch.c6.boundary == child_boundary_s(old(self).boundary, 6)
                    &&& ch.c7.boundary == child_boundary_s(old(self).boundary, 7)
                },
                Option::None => false,
            }),
    {
        match &self.children {
            Option::Some(_) => {
                return false;
            },
            Option::None => {},
        }
        let center = self.boundary.center();
        let size = self.boundary.size();
        let hx = crate::fx::fx_idiv(size.x, 2);
        let hy = crate::fx::fx_idiv(size.y, 2);
        let hz = crate::fx::fx_idiv(size.z, 2);
        let nx = crate::fx::fx_neg(hx);
        let ny = crate::fx::fx_neg(hy);
        let nz = crate::fx::fx_neg(hz);
        let half = Vec3 { x: hx, y: hy, z: hz };
        proof {
            assert(half == bbox_half_s(self.boundary));
        }
        let l0 = v3_add(center, Vec3 { x: nx, y: ny, z: nz });
        let l1 = v3_add(center, Vec3 { x: 0, y: ny, z: nz });
        let l2 = v3_add(center, Vec3 { x: nx, y: 0, z: nz });
        let l3 = v3_add(center, Vec3 { x: 0, y: 0, z: nz });
        let l4 = v3_add(center, Vec3 { x: nx, y: ny, z: 0 });
        let l5 = v3_add(center, Vec3 { x: 0, y: ny, z: 0 });
        let l6 = v3_add(center, Vec3 { x: nx, y: 0, z: 0 });
        let l7 = v3_add(center, Vec3 { x: 0, y: 0, z: 0 });
        let ch = OctreeChildren {
            c0: Octree::new(BoundingBox { min: l0, max: v3_add(l0, half) }, self.capacity),
            c1: Octree::new(BoundingBox { min: l1, max: v3_add(l1, half) }, self.capacity),
            c2: Octree::new(BoundingBox { min: l2, max: v3_add(l2, half) }, self.capacity),
            c3: Octree::new(BoundingBox { min: l3, max: v3_add(l3, half) }, self.capacity),
            c4: Octree::new(BoundingBox { min: l4, max: v3_add(l4, half) }, self.capacity),
            c5: Octree::new(BoundingBox { min: l5, max: v3_add(l5, half) }, self.capacity),
            c6: Octree::new(BoundingBox { min: l6, max: v3_add(l6, half) }, self.capacity),
            c7: Octree::new(BoundingBox { min: l7, max: v3_add(l7, half) }, self.capacity),
        };
        self.children = Some(Box::new(ch));
        proof {
            assert(tree_items(*self) =~= tree_items(*old(self)));
        }
        true
    }

    /// Appends the stored indices of every node intersecting `range`.
    pub fn query(&self, range: &BoundingBox, found: &mut Vec<usize>)
        ensures
            final(found)@ == old(found)@ + query_s(*self, *range),
        decreases *self,
    {
        if !self.boundary.intersects(range) {
            proof {
                assert(found@ =~= old(found)@ + query_s(*self, *range));
            }
            return ;
        }
        let ghost base = found@;
        let mut i: usize = 0;
        while i < self.bodies.len()
            invariant
                i <= self.bodies@.len(),
                found@ == base + self.bodies@.subrange(0, i as int),
            decreases self.bodies@.len() - i,
        {
            found.push(self.bodies[i]);
            proof {
                assert(found@ =~= base + self.bodies@.subrange(0, i as int + 1));
            }
            i += 1;
        }
        proof {
            assert(self.bodies@.subrange(0, self.bodies@.len() as int) =~= self.bodies@);
        }
        match &self.children {
            Option::Some(ch) => {
                ch.c0.query(range, found);
                ch.c1.query(range, found);
                ch.c2.query(range, found);
                ch.c3.query(range, found);
                ch.c4.query(range, found);
                ch.c5.query(range, found);
                ch.c6.query(range, found);
                ch.c7.query(range, found);
                proof {
                    assert(found@ =~= base + query_s(*self, *range));
                }
            },
            Option::None => {},
        }
    }
}

/// Places an index into the first freshly created octant containing the
/// position; every octant is an empty leaf with positive capacity.
fn insert_into_fresh(
    ch: &mut Box<OctreeChildren>,
    index: usize,
    position: Vec3,
) -> (r: bool)
    requires
        old(ch).c0.children is None && old(ch).c0.bodies@.len() == 0 && old(ch).c0.capacity >= 1,
        old(ch).c1.children is None && old(ch).c1.bodies@.len() == 0 && old(ch).c1.capacity >= 1,
        old(ch).c2.children is None && old(ch).c2.bodies@.len() == 0 && old(ch).c2.capacity >= 1,
        old(ch).c3.children is None && old(ch).c3.bodies@.len() == 0 && old(ch).c3.capacity >= 1,
        old(ch).c4.children is None && old(ch).c4.bodies@.len() == 0 && old(ch).c4.capacity >= 1,
        old(ch).c5.children is None && old(ch).c5.bodies@.len() == 0 && old(ch).c5.capacity >= 1,
        old(ch).c6.children is None && old(ch).c6.bodies@.len() == 0 && old(ch).c6.capacity >= 1,
        old(ch).c7.children is None && old(ch).c7.bodies@.len() == 0 && old(ch).c7.capacity >= 1,
    ensures
        r ==> items_of8(**final(ch)) == items_of8(**old(ch)).insert(index),
        !r ==> **final(ch) == **old(ch),
{
    if ch.c0.boundary.contains(position) {
        push_into_leaf(&mut ch.c0, index);
        proof {
            assert(items_of8(**ch) =~= items_of8(**old(ch)).insert(index));
        }
        return true;
    }
    if ch.c1.boundary.contains(position) {
        push_into_leaf(&mut ch.c1, index);
        proof {
            assert(items_of8(**ch) =~= items_of8(**old(ch)).insert(index));
        }
        return true;
    }
    if ch.c2.boundary.contains(position) {
        push_into_leaf(&mut ch.c2, index);
        proof {
            assert(items_of8(**ch) =~= items_of8(**old(ch)).insert(index));
        }
        return true;
    }
    if ch.c3.boundary.contains(position) {
        push_into_leaf(&mut ch.c3, index);
        proof {
            assert(items_of8(**ch) =~= items_of8(**old(ch)).insert(index));
        }
        return true;
    }
    if ch.c4.boundary.contains(position) {
        push_into_leaf(&mut ch.c4, index);
        proof {
            assert(items_of8(**ch) =~= items_of8(**old(ch)).insert(index));
        }
        return true;
    }
    if ch.c5.boundary.contains(position) {
        push_into_leaf(&mut ch.c5, index);
        proof {
            assert(items_of8(**ch) =~= items_of8(**old(ch)).insert(index));
        }
        return true;
    }
    if ch.c6.boundary.contains(position) {
        push_into_leaf(&mut ch.c6, index);
        proof {
            assert(items_of8(**ch) =~= items_of8(**old(ch)).insert(index));
        }
        return true;
    }
    if ch.c7.boundary.contains(position) {
        push_into_leaf(&mut ch.c7, index);
        proof {
            assert(items_of8(**ch) =~= items_of8(**old(ch)).insert(index));
        }
        return true;
    }
    false
}

/// The indices stored below a set of eight octants.
pub open spec fn items_of8(ch: OctreeChildren) -> Multiset<usize> {
    tree_items(ch.c0).add(tree_items(ch.c1)).add(tree_items(ch.c2)).add(tree_items(ch.c3)).add(
        tree_items(ch.c4),
    ).add(tree_items(ch.c5)).add(tree_items(ch.c6)).add(tree_items(ch.c7))
}

/// Stores one index in a leaf with spare room.
fn push_into_leaf(o: &mut Octree, index: usize)
    requires
        old(o).children is None,
        old(o).bodies@.len() < old(o).capacity,
    ensures
        final(o).boundary == old(o).boundary,
        final(o).capacity == old(o).capacity,
        final(o).children is None,
        tree_items(*final(o)) == tree_items(*old(o)).insert(index),
{
    let ghost pre = o.bodies@;
    o.bodies.push(index);
    proof {
        pre.to_multiset_ensures();
        assert(o.bodies@.to_multiset() == pre.to_multiset().insert(index));
    }
}

/// Tries the eight existing octants in order, as the broad phase does.
fn insert_into_children(
    ch: &mut Box<OctreeChildren>,
    index: usize,
    position: Vec3,
    Ghost(parent_height): Ghost<nat>,
) -> (r: bool)
    requires
        tree_height(old(ch).c0) < parent_height,
        tree_height(old(ch).c1) < parent_height,
        tree_height(old(ch).c2) < parent_height,
        tree_height(old(ch).c3) < parent_height,
        tree_height(old(ch).c4) < parent_height,
        tree_height(old(ch).c5) < parent_height,
        tree_height(old(ch).c6) < parent_height,
        tree_height(old(ch).c7) < parent_height,
    ensures
        r ==> items_of8(**final(ch)) == items_of8(**old(ch)).insert(index),
        !r ==> items_of8(**final(ch)) == items_of8(**old(ch)),
    decreases parent_height, 0int,
{
    if ch.c0.insert(index, position) {
        return true;
    }
    if ch.c1.insert(index, position) {
        return true;
    }
    if ch.c2.insert(index, position) {
        return true;
    }
    if ch.c3.insert(index, position) {
        return true;
    }
    if ch.c4.insert(index, position) {
        return true;
    }
    if ch.c5.insert(index, position) {
        return true;
    }
    if ch.c6.insert(index, position) {
        return true;
    }
    if ch.c7.insert(index, position) {
        return true;
    }
    false
}

} // verus!
