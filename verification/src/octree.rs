//! An eight-way tree of bounding boxes over the cubes of a scene.
//!
//! The tree lives in one vector of nodes that refer to each other by
//! position. A node is a leaf, which lists primitives by their index, or it
//! has eight children, which stand before it in the vector; the root stands
//! last. The box of a node holds every cube listed below it, so a ray that
//! misses the box meets none of them.

use vstd::prelude::*;
use crate::aabb::{lemma_enclosing_box_is_hit, lemma_nearest_implies_intersects, Aabb};
use crate::cube::Cube;
use crate::fixed::{fx_max, fx_min, greater, lesser};
use crate::vector::Vec3;

verus! {

/// A node with no more primitives than this is not divided.
pub const LEAF_CAPACITY: usize = 4;

/// No node lies deeper than this under the root.
pub const MAX_DEPTH: u32 = 3;

/// A node of the tree.
pub struct Node {
    /// A box that holds every cube listed under the node.
    pub bounds: Aabb,
    /// The positions of the eight children; empty for a leaf.
    pub children: Vec<usize>,
    /// The indices of the primitives of a leaf; empty for a node with children.
    pub indices: Vec<usize>,
}

/// The tree: its nodes, the root last.
pub struct Octree {
    pub nodes: Vec<Node>,
}

/// How often `i` stands among the first `n` entries of `s`.
pub open spec fn count_in(s: Seq<usize>, n: int, i: usize) -> nat
    decreases n,
{
    if n <= 0 {
        0
    } else {
        count_in(s, n - 1, i) + if s[n - 1] == i {
            1nat
        } else {
            0nat
        }
    }
}

/// The octant of the box around `mid` that a point falls in, from 0 to 7. A
/// point on a dividing plane belongs to the lower side.
pub open spec fn octant_of(p: Vec3, mid: Vec3) -> int {
    (if p.x > mid.x {
        4int
    } else {
        0int
    }) + (if p.y > mid.y {
        2int
    } else {
        0int
    }) + (if p.z > mid.z {
        1int
    } else {
        0int
    })
}

/// The smallest box that holds two boxes.
pub open spec fn union_of(a: Aabb, b: Aabb) -> Aabb {
    Aabb {
        min: Vec3 {
            x: lesser(a.min.x, b.min.x),
            y: lesser(a.min.y, b.min.y),
            z: lesser(a.min.z, b.min.z),
        },
        max: Vec3 {
            x: greater(a.max.x, b.max.x),
            y: greater(a.max.y, b.max.y),
            z: greater(a.max.z, b.max.z),
        },
    }
}

/// The smallest box that holds the cubes named by the first `n` entries of
/// `indices`; the box of the single point at the origin for none.
pub open spec fn enclosure(cubes: Seq<Cube>, indices: Seq<usize>, n: int) -> Aabb
    decreases n,
{
    if n <= 0 {
        Aabb { min: Vec3 { x: 0, y: 0, z: 0 }, max: Vec3 { x: 0, y: 0, z: 0 } }
    } else if n == 1 {
        cubes[indices[0] as int].bounds()
    } else {
        union_of(enclosure(cubes, indices, n - 1), cubes[indices[n - 1] as int].bounds())
    }
}

/// A node is a leaf or has eight children and no list of its own, and its
/// children stand before it.
pub open spec fn node_ok(nodes: Seq<Node>, n: int) -> bool {
    let node = nodes[n];
    &&& node.children@.len() == 0 || node.children@.len() == 8
    &&& node.children@.len() == 8 ==> node.indices@.len() == 0
    &&& forall|k: int| 0 <= k < node.children@.len() ==> #[trigger] node.children@[k] < n
}

/// Every node of the arena is in order.
pub open spec fn structure_ok(nodes: Seq<Node>) -> bool {
    forall|n: int| 0 <= n < nodes.len() ==> #[trigger] node_ok(nodes, n)
}

/// How often primitive `i` is listed in the leaves under node `n`.
pub open spec fn occurrences(nodes: Seq<Node>, n: int, i: usize) -> nat
    decreases n, 1int, 0int,
{
    if 0 <= n < nodes.len() {
        if nodes[n].children@.len() == 0 {
            count_in(nodes[n].indices@, nodes[n].indices@.len() as int, i)
        } else {
            sum_over(nodes, nodes[n].children@, nodes[n].children@.len() as int, n, i)
        }
    } else {
        0
    }
}

/// How often primitive `i` is listed under the first `k` of `children`, of
/// which only those that stand before `limit` count.
pub open spec fn sum_over(nodes: Seq<Node>, children: Seq<usize>, k: int, limit: int, i: usize) -> nat
    decreases limit, 0int, k,
{
    if k <= 0 {
        0
    } else {
        sum_over(nodes, children, k - 1, limit, i) + if children[k - 1] < limit {
            occurrences(nodes, children[k - 1] as int, i)
        } else {
            0nat
        }
    }
}

/// The arena is a tree over `cubes`: every node is in order, lists only
/// indices of `cubes`, and has a box that holds every cube listed under it.
pub open spec fn arena_wf(nodes: Seq<Node>, cubes: Seq<Cube>) -> bool {
    &&& structure_ok(nodes)
    &&& forall|n: int, k: int|
        0 <= n < nodes.len() && 0 <= k < nodes[n].indices@.len()
            ==> #[trigger] nodes[n].indices@[k] < cubes.len()
    &&& forall|n: int, i: usize|
        0 <= n < nodes.len() && #[trigger] occurrences(nodes, n, i) > 0 ==> i < cubes.len()
            && nodes[n].bounds.encloses(cubes[i as int].bounds())
}

/// The primitives to test for a ray, gathered under node `n`: none where
/// the ray misses the box of the node, the list of a leaf, and for a node
/// with children what is gathered under each, in order.
pub open spec fn spec_gather(nodes: Seq<Node>, n: int, o: Vec3, d: Vec3) -> Seq<usize>
    decreases n, 1int, 0int,
{
    if 0 <= n < nodes.len() && nodes[n].bounds.spec_intersects(o, d) {
        if nodes[n].children@.len() == 0 {
            nodes[n].indices@
        } else {
            gather_over(nodes, nodes[n].children@, nodes[n].children@.len() as int, n, o, d)
        }
    } else {
        Seq::empty()
    }
}

/// What is gathered under the first `k` of `children`, in order.
pub open spec fn gather_over(
    nodes: Seq<Node>,
    children: Seq<usize>,
    k: int,
    limit: int,
    o: Vec3,
    d: Vec3,
) -> Seq<usize>
    decreases limit, 0int, k,
{
    if k <= 0 {
        Seq::empty()
    } else {
        gather_over(nodes, children, k - 1, limit, o, d) + if children[k - 1] < limit {
            spec_gather(nodes, children[k - 1] as int, o, d)
        } else {
            Seq::empty()
        }
    }
}

/// A node as a value: its box, and its two lists as sequences.
pub struct NodeView {
    pub bounds: Aabb,
    pub children: Seq<usize>,
    pub indices: Seq<usize>,
}

impl View for Node {
    type V = NodeView;

    open spec fn view(&self) -> NodeView {
        NodeView { bounds: self.bounds, children: self.children@, indices: self.indices@ }
    }
}

/// The nodes of an arena as values.
pub open spec fn views(nodes: Seq<Node>) -> Seq<NodeView> {
    Seq::new(nodes.len(), |n: int| nodes[n]@)
}

/// The indices from 0 up to, not including, `n`, in order.
pub open spec fn all_indices(n: nat) -> Seq<usize> {
    Seq::new(n, |i: int| i as usize)
}

/// Those of the first `n` entries of `indices`, in order, that name a cube
/// whose center falls in octant `which` of the box around `mid`.
pub open spec fn selected(cubes: Seq<Cube>, indices: Seq<usize>, n: int, mid: Vec3, which: int) -> Seq<
    usize,
>
    decreases n,
{
    if n <= 0 {
        Seq::empty()
    } else if octant_of(cubes[indices[n - 1] as int].bounds().spec_center(), mid) == which {
        selected(cubes, indices, n - 1, mid, which).push(indices[n - 1])
    } else {
        selected(cubes, indices, n - 1, mid, which)
    }
}

/// The arena after the node for the primitives named by `indices` was
/// built at its end, at `depth` under the root. Its box is the smallest
/// that holds their cubes. The node is a leaf that lists them where they
/// are no more than `LEAF_CAPACITY` or the depth is `MAX_DEPTH`. Else its
/// eight children are built first, in the order of the octants around the
/// center of the box, each for the primitives whose cube has its center in
/// that octant, and the node lists the children.
pub open spec fn grown(cubes: Seq<Cube>, indices: Seq<usize>, depth: nat, arena: Seq<NodeView>) -> Seq<
    NodeView,
>
    decreases MAX_DEPTH - depth, 1int, 0int,
{
    let bounds = enclosure(cubes, indices, indices.len() as int);
    if indices.len() <= LEAF_CAPACITY || depth >= MAX_DEPTH {
        arena.push(NodeView { bounds, children: Seq::empty(), indices })
    } else {
        let below = grown_children(cubes, indices, bounds.spec_center(), depth, arena, 8);
        below.0.push(NodeView { bounds, children: below.1, indices: Seq::empty() })
    }
}

/// The arena after the first `k` children of a node at `depth` were built
/// at its end, and the positions of those children.
pub open spec fn grown_children(
    cubes: Seq<Cube>,
    indices: Seq<usize>,
    mid: Vec3,
    depth: nat,
    arena: Seq<NodeView>,
    k: int,
) -> (Seq<NodeView>, Seq<usize>)
    decreases MAX_DEPTH - depth, 0int, k,
{
    if k <= 0 || depth >= MAX_DEPTH {
        (arena, Seq::empty())
    } else {
        let before = grown_children(cubes, indices, mid, depth, arena, k - 1);
        let after = grown(
            cubes,
            selected(cubes, indices, indices.len() as int, mid, k - 1),
            depth + 1,
            before.0,
        );
        (after, before.1.push((after.len() - 1) as usize))
    }
}

/// An entry that is counted stands somewhere among those counted.
pub proof fn lemma_counted_is_present(s: Seq<usize>, n: int, i: usize)
    requires
        count_in(s, n, i) > 0,
    ensures
        exists|k: int| 0 <= k < n && s[k] == i,
    decreases n,
{
    if n > 0 {
        if s[n - 1] != i {
            lemma_counted_is_present(s, n - 1, i);
            let k = choose|k: int| 0 <= k < n - 1 && s[k] == i;
            assert(0 <= k < n && s[k] == i);
        } else {
            assert(0 <= n - 1 < n && s[n - 1] == i);
        }
    }
}

/// The count over a prefix does not depend on what follows the prefix.
pub proof fn lemma_count_prefix(s: Seq<usize>, t: Seq<usize>, n: int, i: usize)
    requires
        n <= s.len(),
        n <= t.len(),
        forall|k: int| 0 <= k < n ==> s[k] == t[k],
    ensures
        count_in(s, n, i) == count_in(t, n, i),
    decreases n,
{
    if n > 0 {
        lemma_count_prefix(s, t, n - 1, i);
    }
}

/// What is listed under a node depends only on the nodes up to it.
pub proof fn lemma_occurrences_stable(a: Seq<Node>, b: Seq<Node>, n: int, i: usize)
    requires
        0 <= n < a.len() <= b.len(),
        forall|m: int| 0 <= m <= n ==> a[m] == b[m],
    ensures
        occurrences(a, n, i) == occurrences(b, n, i),
    decreases n, 1int, 0int,
{
    if a[n].children@.len() != 0 {
        lemma_sum_stable(a, b, a[n].children@, a[n].children@.len() as int, n, i);
    }
}

/// The sum over children depends only on the nodes before `limit`.
pub proof fn lemma_sum_stable(
    a: Seq<Node>,
    b: Seq<Node>,
    children: Seq<usize>,
    k: int,
    limit: int,
    i: usize,
)
    requires
        0 <= limit <= a.len() <= b.len(),
        forall|m: int| 0 <= m < limit ==> a[m] == b[m],
    ensures
        sum_over(a, children, k, limit, i) == sum_over(b, children, k, limit, i),
    decreases limit, 0int, k,
{
    if k > 0 {
        lemma_sum_stable(a, b, children, k - 1, limit, i);
        if children[k - 1] < limit {
            lemma_occurrences_stable(a, b, children[k - 1] as int, i);
        }
    }
}

/// Where every child stands before `limit`, a greater bound counts the same.
pub proof fn lemma_sum_widen(
    nodes: Seq<Node>,
    children: Seq<usize>,
    k: int,
    limit: int,
    wider: int,
    i: usize,
)
    requires
        limit <= wider,
        forall|j: int| 0 <= j < k ==> #[trigger] children[j] < limit,
    ensures
        sum_over(nodes, children, k, limit, i) == sum_over(nodes, children, k, wider, i),
    decreases k,
{
    if k > 0 {
        lemma_sum_widen(nodes, children, k - 1, limit, wider, i);
        assert(children[k - 1] < limit);
    }
}

/// The sum over the first `k` children does not depend on later children.
pub proof fn lemma_sum_children_prefix(
    nodes: Seq<Node>,
    c1: Seq<usize>,
    c2: Seq<usize>,
    k: int,
    limit: int,
    i: usize,
)
    requires
        forall|j: int| 0 <= j < k ==> c1[j] == c2[j],
    ensures
        sum_over(nodes, c1, k, limit, i) == sum_over(nodes, c2, k, limit, i),
    decreases k,
{
    if k > 0 {
        lemma_sum_children_prefix(nodes, c1, c2, k - 1, limit, i);
    }
}

/// The box `b` holds the cube named by entry `k` of `indices`.
pub open spec fn holds_entry(b: Aabb, cubes: Seq<Cube>, indices: Seq<usize>, k: int) -> bool {
    b.encloses(cubes[indices[k] as int].bounds())
}

/// The octant of the box around `mid` that a point falls in.
pub fn octant(p: &Vec3, mid: &Vec3) -> (q: usize)
    ensures
        q == octant_of(*p, *mid),
        q < 8,
{
    let mut q: usize = 0;
    if p.x > mid.x {
        q = q + 4;
    }
    if p.y > mid.y {
        q = q + 2;
    }
    if p.z > mid.z {
        q = q + 1;
    }
    q
}

/// The smallest box that holds two boxes.
pub fn union(a: &Aabb, b: &Aabb) -> (u: Aabb)
    ensures
        u == union_of(*a, *b),
        u.encloses(*a),
        u.encloses(*b),
{
    Aabb {
        min: Vec3 {
            x: fx_min(a.min.x, b.min.x),
            y: fx_min(a.min.y, b.min.y),
            z: fx_min(a.min.z, b.min.z),
        },
        max: Vec3 {
            x: fx_max(a.max.x, b.max.x),
            y: fx_max(a.max.y, b.max.y),
            z: fx_max(a.max.z, b.max.z),
        },
    }
}

/// The smallest box that holds the cubes named by `indices`.
pub fn enclose(cubes: &Vec<Cube>, indices: &Vec<usize>) -> (b: Aabb)
    requires
        forall|k: int| 0 <= k < indices@.len() ==> #[trigger] indices@[k] < cubes@.len(),
    ensures
        b == enclosure(cubes@, indices@, indices@.len() as int),
        forall|k: int| 0 <= k < indices@.len() ==> #[trigger] holds_entry(b, cubes@, indices@, k),
{
    if indices.len() == 0 {
        return Aabb { min: Vec3 { x: 0, y: 0, z: 0 }, max: Vec3 { x: 0, y: 0, z: 0 } };
    }
    let mut b = cubes[indices[0]].bounding_box();
    let mut i: usize = 1;
    while i < indices.len()
        invariant
            1 <= i <= indices.len(),
            forall|k: int| 0 <= k < indices@.len() ==> #[trigger] indices@[k] < cubes@.len(),
            b == enclosure(cubes@, indices@, i as int),
            forall|k: int| 0 <= k < i ==> #[trigger] holds_entry(b, cubes@, indices@, k),
        decreases indices.len() - i,
    {
        let ghost before = b;
        b = union(&b, &cubes[indices[i]].bounding_box());
        proof {
            assert forall|k: int| 0 <= k < i + 1 implies #[trigger] holds_entry(
                b,
                cubes@,
                indices@,
                k,
            ) by {
                if k < i {
                    assert(holds_entry(before, cubes@, indices@, k));
                }
            }
        }
        i = i + 1;
    }
    b
}

/// The entries of `indices`, in order, that name a cube whose center falls
/// in octant `which` of the box around `mid`.
pub fn select(cubes: &Vec<Cube>, indices: &Vec<usize>, mid: &Vec3, which: usize) -> (bucket: Vec<
    usize,
>)
    requires
        forall|k: int| 0 <= k < indices@.len() ==> #[trigger] indices@[k] < cubes@.len(),
    ensures
        bucket@ == selected(cubes@, indices@, indices@.len() as int, *mid, which as int),
        forall|k: int| 0 <= k < bucket@.len() ==> #[trigger] bucket@[k] < cubes@.len(),
        forall|i: usize| #[trigger]
            count_in(bucket@, bucket@.len() as int, i) == (if octant_of(
                cubes@[i as int].bounds().spec_center(),
                *mid,
            ) == which {
                count_in(indices@, indices@.len() as int, i)
            } else {
                0
            }),
{
    let mut bucket: Vec<usize> = Vec::new();
    let mut n: usize = 0;
    while n < indices.len()
        invariant
            n <= indices.len(),
            bucket@ == selected(cubes@, indices@, n as int, *mid, which as int),
            forall|k: int| 0 <= k < indices@.len() ==> #[trigger] indices@[k] < cubes@.len(),
            forall|k: int| 0 <= k < bucket@.len() ==> #[trigger] bucket@[k] < cubes@.len(),
            forall|i: usize| #[trigger]
                count_in(bucket@, bucket@.len() as int, i) == (if octant_of(
                    cubes@[i as int].bounds().spec_center(),
                    *mid,
                ) == which {
                    count_in(indices@, n as int, i)
                } else {
                    0
                }),
        decreases indices.len() - n,
    {
        let index = indices[n];
        let center = cubes[index].bounding_box().center();
        if octant(&center, mid) == which {
            let ghost before = bucket@;
            bucket.push(index);
            proof {
                assert forall|i: usize| #[trigger]
                    count_in(bucket@, bucket@.len() as int, i) == (if octant_of(
                        cubes@[i as int].bounds().spec_center(),
                        *mid,
                    ) == which {
                        count_in(indices@, n + 1, i)
                    } else {
                        0
                    }) by {
                    lemma_count_prefix(before, bucket@, before.len() as int, i);
                    assert(count_in(before, before.len() as int, i) == (if octant_of(
                        cubes@[i as int].bounds().spec_center(),
                        *mid,
                    ) == which {
                        count_in(indices@, n as int, i)
                    } else {
                        0
                    }));
                }
            }
        }
        n = n + 1;
    }
    bucket
}

/// Builds the node for the primitives named by `indices` at the end of the
/// arena, its descendants before it, and returns its position. The node is
/// a leaf where it has no more than `LEAF_CAPACITY` primitives or lies at
/// `MAX_DEPTH`; else each primitive goes to the child for the octant, around
/// the center of the box of the node, that the center of its cube falls in.
pub fn build_node(cubes: &Vec<Cube>, indices: Vec<usize>, depth: u32, nodes: &mut Vec<Node>) -> (id:
    usize)
    requires
        depth <= MAX_DEPTH,
        forall|k: int| 0 <= k < indices@.len() ==> #[trigger] indices@[k] < cubes@.len(),
        arena_wf(old(nodes)@, cubes@),
    ensures
        views(final(nodes)@) == grown(cubes@, indices@, depth as nat, views(old(nodes)@)),
        arena_wf(final(nodes)@, cubes@),
        final(nodes)@.len() == id + 1,
        id >= old(nodes)@.len(),
        forall|m: int| 0 <= m < old(nodes)@.len() ==> final(nodes)@[m] == old(nodes)@[m],
        forall|i: usize| #[trigger]
            occurrences(final(nodes)@, id as int, i) == count_in(
                indices@,
                indices@.len() as int,
                i,
            ),
    decreases MAX_DEPTH - depth,
{
    let bounds = enclose(cubes, &indices);
    let ghost start = nodes@;
    if indices.len() <= LEAF_CAPACITY || depth >= MAX_DEPTH {
        let ghost listed = indices@;
        nodes.push(Node { bounds, children: Vec::new(), indices });
        let id = nodes.len() - 1;
        proof {
            lemma_extended_arena(start, nodes@, cubes@, listed);
            assert(views(nodes@) =~= views(start).push(
                NodeView { bounds, children: Seq::empty(), indices: listed },
            ));
        }
        return id;
    }
    let mid = bounds.center();
    let mut children: Vec<usize> = Vec::new();
    let mut k: usize = 0;
    while k < 8
        invariant
            k <= 8,
            depth < MAX_DEPTH,
            children@.len() == k,
            forall|n: int| 0 <= n < indices@.len() ==> #[trigger] indices@[n] < cubes@.len(),
            arena_wf(nodes@, cubes@),
            start.len() <= nodes@.len(),
            forall|m: int| 0 <= m < start.len() ==> nodes@[m] == start[m],
            forall|j: int| 0 <= j < k ==> #[trigger] children@[j] < nodes@.len(),
            indices@.len() > LEAF_CAPACITY,
            (views(nodes@), children@) == grown_children(
                cubes@,
                indices@,
                mid,
                depth as nat,
                views(start),
                k as int,
            ),
            forall|i: usize| #[trigger]
                sum_over(nodes@, children@, k as int, nodes@.len() as int, i) == (if octant_of(
                    cubes@[i as int].bounds().spec_center(),
                    mid,
                ) < k {
                    count_in(indices@, indices@.len() as int, i)
                } else {
                    0
                }),
        decreases 8 - k,
    {
        let bucket = select(cubes, &indices, &mid, k);
        let ghost picked = bucket@;
        let ghost before = nodes@;
        let ghost earlier = children@;
        let child = build_node(cubes, bucket, depth + 1, nodes);
        children.push(child);
        proof {
            assert forall|i: usize| #[trigger]
                sum_over(nodes@, children@, k + 1, nodes@.len() as int, i) == (if octant_of(
                    cubes@[i as int].bounds().spec_center(),
                    mid,
                ) < k + 1 {
                    count_in(indices@, indices@.len() as int, i)
                } else {
                    0
                }) by {
                lemma_sum_children_prefix(nodes@, children@, earlier, k as int, nodes@.len() as int, i);
                lemma_sum_widen(nodes@, earlier, k as int, before.len() as int, nodes@.len() as int, i);
                lemma_sum_stable(before, nodes@, earlier, k as int, before.len() as int, i);
                assert(sum_over(before, earlier, k as int, before.len() as int, i) == (if octant_of(
                    cubes@[i as int].bounds().spec_center(),
                    mid,
                ) < k {
                    count_in(indices@, indices@.len() as int, i)
                } else {
                    0
                }));
                assert(occurrences(nodes@, child as int, i) == count_in(
                    picked,
                    picked.len() as int,
                    i,
                ));
            }
        }
        k = k + 1;
    }
    let ghost before = nodes@;
    let ghost kids = children@;
    nodes.push(Node { bounds, children, indices: Vec::new() });
    let id = nodes.len() - 1;
    proof {
        assert(views(nodes@) =~= views(before).push(
            NodeView { bounds, children: kids, indices: Seq::empty() },
        ));
        assert(node_ok(nodes@, id as int));
        assert forall|n: int| 0 <= n < nodes@.len() implies #[trigger] node_ok(nodes@, n) by {
            if n < id {
                assert(node_ok(before, n));
            }
        }
        assert forall|i: usize| #[trigger]
            occurrences(nodes@, id as int, i) == count_in(
                indices@,
                indices@.len() as int,
                i,
            ) by {
            lemma_sum_stable(before, nodes@, kids, 8, id as int, i);
            assert(0 <= octant_of(cubes@[i as int].bounds().spec_center(), mid) < 8);
        }
        assert forall|n: int, i: usize|
            0 <= n < nodes@.len() && #[trigger] occurrences(nodes@, n, i) > 0 implies i
            < cubes@.len() && nodes@[n].bounds.encloses(cubes@[i as int].bounds()) by {
            if n < id {
                lemma_occurrences_stable(before, nodes@, n, i);
            } else {
                lemma_counted_is_present(indices@, indices@.len() as int, i);
                let at = choose|at: int| 0 <= at < indices@.len() && indices@[at] == i;
                assert(holds_entry(bounds, cubes@, indices@, at));
            }
        }
    }
    id
}

/// An arena stays a tree when a leaf is put at its end whose box holds the
/// cubes it lists.
proof fn lemma_extended_arena(
    before: Seq<Node>,
    after: Seq<Node>,
    cubes: Seq<Cube>,
    listed: Seq<usize>,
)
    requires
        arena_wf(before, cubes),
        after.len() == before.len() + 1,
        forall|m: int| 0 <= m < before.len() ==> after[m] == before[m],
        after[before.len() as int].children@.len() == 0,
        after[before.len() as int].indices@ == listed,
        forall|k: int| 0 <= k < listed.len() ==> #[trigger] listed[k] < cubes.len(),
        forall|k: int|
            0 <= k < listed.len() ==> #[trigger] holds_entry(
                after[before.len() as int].bounds,
                cubes,
                listed,
                k,
            ),
    ensures
        arena_wf(after, cubes),
{
    let id = before.len() as int;
    assert forall|n: int| 0 <= n < after.len() implies #[trigger] node_ok(after, n) by {
        if n < id {
            assert(node_ok(before, n));
        }
    }
    assert forall|n: int, i: usize|
        0 <= n < after.len() && #[trigger] occurrences(after, n, i) > 0 implies i < cubes.len()
        && after[n].bounds.encloses(cubes[i as int].bounds()) by {
        if n < id {
            lemma_occurrences_stable(before, after, n, i);
        } else {
            lemma_counted_is_present(listed, listed.len() as int, i);
            let at = choose|at: int| 0 <= at < listed.len() && listed[at] == i;
            assert(holds_entry(after[id].bounds, cubes, listed, at));
        }
    }
}

impl Octree {
    /// The position of the root.
    pub open spec fn root(self) -> int {
        self.nodes@.len() - 1
    }

    /// The tree is a tree over `cubes` with a root.
    pub open spec fn wf(self, cubes: Seq<Cube>) -> bool {
        self.nodes@.len() > 0 && arena_wf(self.nodes@, cubes)
    }

    /// Every primitive of `cubes` is listed in exactly one leaf, once, and
    /// nothing else is listed.
    pub open spec fn lists_each_once(self, cubes: Seq<Cube>) -> bool {
        forall|i: usize| #[trigger]
            occurrences(self.nodes@, self.root(), i) == (if i < cubes.len() {
                1nat
            } else {
                0nat
            })
    }

    /// The primitives to test for a ray.
    pub open spec fn candidates(self, o: Vec3, d: Vec3) -> Seq<usize> {
        spec_gather(self.nodes@, self.root(), o, d)
    }

    /// The nodes of the tree over `cubes`: the node for all of them, built
    /// in an empty arena.
    pub open spec fn spec_build(cubes: Seq<Cube>) -> Seq<NodeView> {
        grown(cubes, all_indices(cubes.len()), 0, Seq::empty())
    }

    /// Builds the tree over `cubes`.
    pub fn build(cubes: &Vec<Cube>) -> (tree: Octree)
        ensures
            views(tree.nodes@) == Octree::spec_build(cubes@),
            tree.wf(cubes@),
            tree.lists_each_once(cubes@),
    {
        let mut all: Vec<usize> = Vec::new();
        let mut n: usize = 0;
        while n < cubes.len()
            invariant
                n <= cubes.len(),
                all@.len() == n,
                forall|k: int| 0 <= k < n ==> #[trigger] all@[k] == k,
                forall|i: usize| #[trigger]
                    count_in(all@, n as int, i) == (if i < n {
                        1nat
                    } else {
                        0nat
                    }),
            decreases cubes.len() - n,
        {
            let ghost before = all@;
            all.push(n);
            proof {
                assert forall|i: usize| #[trigger]
                    count_in(all@, n + 1, i) == (if i < n + 1 {
                        1nat
                    } else {
                        0nat
                    }) by {
                    lemma_count_prefix(before, all@, n as int, i);
                    assert(count_in(before, n as int, i) == (if i < n {
                        1nat
                    } else {
                        0nat
                    }));
                }
            }
            n = n + 1;
        }
        let mut nodes: Vec<Node> = Vec::new();
        let ghost all_seq = all@;
        assert(all_seq =~= all_indices(cubes@.len()));
        assert(views(nodes@) =~= Seq::empty());
        let root = build_node(cubes, all, 0, &mut nodes);
        let tree = Octree { nodes };
        proof {
            assert forall|i: usize| #[trigger]
                occurrences(tree.nodes@, tree.root(), i) == (if i < cubes@.len() {
                    1nat
                } else {
                    0nat
                }) by {
                assert(occurrences(tree.nodes@, root as int, i) == count_in(
                    all_seq,
                    all_seq.len() as int,
                    i,
                ));
            }
        }
        tree
    }

    /// Gathers the primitives to test for a ray: those of every leaf that
    /// is reached through boxes which the ray passes through.
    pub fn gather(&self, o: &Vec3, d: &Vec3) -> (found: Vec<usize>)
        requires
            structure_ok(self.nodes@),
        ensures
            found@ == self.candidates(*o, *d),
    {
        let mut found: Vec<usize> = Vec::new();
        if self.nodes.len() > 0 {
            gather_node(&self.nodes, self.nodes.len() - 1, o, d, &mut found);
        }
        found
    }
}

/// Appends to `found` the primitives to test for a ray under node `n`.
pub fn gather_node(nodes: &Vec<Node>, n: usize, o: &Vec3, d: &Vec3, found: &mut Vec<usize>)
    requires
        n < nodes@.len(),
        structure_ok(nodes@),
    ensures
        final(found)@ == old(found)@ + spec_gather(nodes@, n as int, *o, *d),
    decreases n,
{
    let node = &nodes[n];
    assert(node_ok(nodes@, n as int));
    if !node.bounds.intersects(o, d) {
        return ;
    }
    if node.children.len() == 0 {
        let mut k: usize = 0;
        while k < node.indices.len()
            invariant
                k <= node.indices@.len(),
                found@ == old(found)@ + node.indices@.subrange(0, k as int),
            decreases node.indices@.len() - k,
        {
            found.push(node.indices[k]);
            assert(node.indices@.subrange(0, k + 1) == node.indices@.subrange(0, k as int).push(
                node.indices@[k as int],
            ));
            k = k + 1;
        }
        assert(node.indices@.subrange(0, k as int) == node.indices@);
    } else {
        let mut k: usize = 0;
        while k < node.children.len()
            invariant
                k <= node.children@.len(),
                n < nodes@.len(),
                structure_ok(nodes@),
                node == &nodes@[n as int],
                node_ok(nodes@, n as int),
                found@ == old(found)@ + gather_over(
                    nodes@,
                    node.children@,
                    k as int,
                    n as int,
                    *o,
                    *d,
                ),
            decreases node.children@.len() - k,
        {
            let child = node.children[k];
            assert(node.children@[k as int] < n);
            gather_node(nodes, child, o, d, found);
            k = k + 1;
        }
    }
}

/// Everything gathered under a node is the index of a cube.
pub proof fn lemma_gathered_in_range(nodes: Seq<Node>, cubes: Seq<Cube>, n: int, o: Vec3, d: Vec3)
    requires
        arena_wf(nodes, cubes),
    ensures
        forall|k: int|
            0 <= k < spec_gather(nodes, n, o, d).len() ==> #[trigger] spec_gather(nodes, n, o, d)[k]
                < cubes.len(),
    decreases n, 1int, 0int,
{
    if 0 <= n < nodes.len() && nodes[n].bounds.spec_intersects(o, d) {
        if nodes[n].children@.len() != 0 {
            lemma_gathered_over_in_range(
                nodes,
                cubes,
                nodes[n].children@,
                nodes[n].children@.len() as int,
                n,
                o,
                d,
            );
            let under = gather_over(
                nodes,
                nodes[n].children@,
                nodes[n].children@.len() as int,
                n,
                o,
                d,
            );
            assert(spec_gather(nodes, n, o, d) == under);
            assert forall|k: int| 0 <= k < spec_gather(nodes, n, o, d).len() implies #[trigger] spec_gather(
                nodes,
                n,
                o,
                d,
            )[k] < cubes.len() by {
                assert(under[k] < cubes.len());
            }
        } else {
            assert forall|k: int| 0 <= k < spec_gather(nodes, n, o, d).len() implies #[trigger] spec_gather(
                nodes,
                n,
                o,
                d,
            )[k] < cubes.len() by {
                assert(nodes[n].indices@[k] < cubes.len());
            }
        }
    }
}

/// Everything gathered under some children is the index of a cube.
pub proof fn lemma_gathered_over_in_range(
    nodes: Seq<Node>,
    cubes: Seq<Cube>,
    children: Seq<usize>,
    k: int,
    limit: int,
    o: Vec3,
    d: Vec3,
)
    requires
        arena_wf(nodes, cubes),
    ensures
        forall|j: int|
            0 <= j < gather_over(nodes, children, k, limit, o, d).len() ==> #[trigger] gather_over(
                nodes,
                children,
                k,
                limit,
                o,
                d,
            )[j] < cubes.len(),
    decreases limit, 0int, k,
{
    if k > 0 {
        lemma_gathered_over_in_range(nodes, cubes, children, k - 1, limit, o, d);
        let rest = gather_over(nodes, children, k - 1, limit, o, d);
        let last = if children[k - 1] < limit {
            spec_gather(nodes, children[k - 1] as int, o, d)
        } else {
            Seq::empty()
        };
        if children[k - 1] < limit {
            lemma_gathered_in_range(nodes, cubes, children[k - 1] as int, o, d);
        }
        assert forall|j: int| 0 <= j < (rest + last).len() implies #[trigger] (rest + last)[j]
            < cubes.len() by {
            if j < rest.len() {
                assert(rest[j] < cubes.len());
            } else {
                assert(last[j - rest.len()] < cubes.len());
            }
        }
    }
}

/// Nothing that the ray meets is left out: a cube listed under a node, and
/// met by the ray, is among what is gathered under that node.
pub proof fn lemma_gather_complete(
    nodes: Seq<Node>,
    cubes: Seq<Cube>,
    n: int,
    o: Vec3,
    d: Vec3,
    i: usize,
)
    requires
        arena_wf(nodes, cubes),
        0 <= n < nodes.len(),
        occurrences(nodes, n, i) > 0,
        cubes[i as int].bounds().wf(),
        cubes[i as int].spec_ray_intersect(o, d).is_some(),
    ensures
        spec_gather(nodes, n, o, d).contains(i),
    decreases n, 1int, 0int,
{
    lemma_nearest_implies_intersects(cubes[i as int].bounds(), o, d);
    lemma_enclosing_box_is_hit(cubes[i as int].bounds(), nodes[n].bounds, o, d);
    if nodes[n].children@.len() == 0 {
        lemma_counted_is_present(nodes[n].indices@, nodes[n].indices@.len() as int, i);
        let k = choose|k: int| 0 <= k < nodes[n].indices@.len() && nodes[n].indices@[k] == i;
        assert(nodes[n].indices@[k] == i);
    } else {
        lemma_gather_over_complete(
            nodes,
            cubes,
            nodes[n].children@,
            nodes[n].children@.len() as int,
            n,
            o,
            d,
            i,
        );
    }
}

/// A cube listed under one of some children, and met by the ray, is among
/// what is gathered under those children.
pub proof fn lemma_gather_over_complete(
    nodes: Seq<Node>,
    cubes: Seq<Cube>,
    children: Seq<usize>,
    k: int,
    limit: int,
    o: Vec3,
    d: Vec3,
    i: usize,
)
    requires
        arena_wf(nodes, cubes),
        0 <= limit <= nodes.len(),
        sum_over(nodes, children, k, limit, i) > 0,
        cubes[i as int].bounds().wf(),
        cubes[i as int].spec_ray_intersect(o, d).is_some(),
    ensures
        gather_over(nodes, children, k, limit, o, d).contains(i),
    decreases limit, 0int, k,
{
    if k > 0 {
        let rest = gather_over(nodes, children, k - 1, limit, o, d);
        let last = if children[k - 1] < limit {
            spec_gather(nodes, children[k - 1] as int, o, d)
        } else {
            Seq::empty()
        };
        if sum_over(nodes, children, k - 1, limit, i) > 0 {
            lemma_gather_over_complete(nodes, cubes, children, k - 1, limit, o, d, i);
            let at = choose|at: int| 0 <= at < rest.len() && rest[at] == i;
            assert((rest + last)[at] == i);
        } else {
            lemma_gather_complete(nodes, cubes, children[k - 1] as int, o, d, i);
            let at = choose|at: int| 0 <= at < last.len() && last[at] == i;
            assert((rest + last)[rest.len() + at] == i);
        }
    }
}

} // verus!
