//! Flattening the node forest into the document's id-indexed node table.
//!
//! Ids are assigned by an explicit two-pass traversal: every node is pushed
//! depth-first onto a pending stack with its children expanded behind it,
//! then the stack is unwound in reverse so that ids run in post-order —
//! every child receives its id before its parent, which is the law
//! `lemma_child_id_below_parent` states.
use vstd::prelude::*;

use crate::error::GltfError;
use crate::fbits::{f_is_finite, is_finite_bits};
use crate::gltf;
use crate::matrix::{quat_bits, quat_of_euler_deg};
use crate::model::Node;
use crate::names::{lookup, spec_lookup, view_map};

verus! {

/// The nodes a stack of references stands for.
pub open spec fn derefs(s: Seq<&Node>) -> Seq<Node> {
    s.map_values(|r: &Node| *r)
}

/// Pushing a reference appends the node it stands for.
pub proof fn lemma_derefs_push(s: Seq<&Node>, x: &Node)
    ensures
        derefs(s.push(x)) == derefs(s).push(*x),
{
    assert(derefs(s.push(x)) =~= derefs(s).push(*x));
}

/// The post-order listing of one node's subtree: the children's subtrees in
/// declaration order, then the node itself.
pub open spec fn spec_postorder(n: Node) -> Seq<Node>
    decreases n,
{
    spec_postorder_forest(n.children@) + seq![n]
}

/// The post-order listing of a forest, roots in declaration order.
pub open spec fn spec_postorder_forest(ns: Seq<Node>) -> Seq<Node>
    decreases ns,
{
    if ns.len() == 0 {
        Seq::empty()
    } else {
        spec_postorder(ns[0]) + spec_postorder_forest(ns.drop_first())
    }
}

/// The post-order listing of a pending stack, top of stack first: what the
/// first traversal pass still owes, read back to front.
pub open spec fn spec_stack_po(p: Seq<Node>) -> Seq<Node>
    decreases p.len(),
{
    if p.len() == 0 {
        Seq::empty()
    } else {
        spec_stack_po(p.drop_last()) + spec_postorder(p.last())
    }
}

/// Post-order listings concatenate over forest concatenation.
pub proof fn lemma_pof_append(a: Seq<Node>, b: Seq<Node>)
    ensures
        spec_postorder_forest(a + b) == spec_postorder_forest(a) + spec_postorder_forest(b),
    decreases a.len(),
{
    if a.len() == 0 {
        assert(a + b =~= b);
        assert(spec_postorder_forest(a) + spec_postorder_forest(b) =~= spec_postorder_forest(b));
    } else {
        assert((a + b)[0] == a[0]);
        assert((a + b).drop_first() =~= a.drop_first() + b);
        lemma_pof_append(a.drop_first(), b);
        assert(spec_postorder_forest(a + b) =~= spec_postorder_forest(a)
            + spec_postorder_forest(b));
    }
}

/// A single node's subtree listing holds at least the node itself.
pub proof fn lemma_po_len(n: Node)
    ensures
        spec_postorder(n).len() >= 1,
{
}

/// A one-root forest lists exactly that root's subtree.
pub proof fn lemma_pof_singleton(n: Node)
    ensures
        spec_postorder_forest(seq![n]) == spec_postorder(n),
{
    assert(seq![n].drop_first() =~= Seq::<Node>::empty());
    assert(spec_postorder_forest(Seq::<Node>::empty()) =~= Seq::<Node>::empty());
    assert(spec_postorder_forest(seq![n]) =~= spec_postorder(n));
}

/// A pending stack's listing is the post-order listing of the same nodes
/// read as a forest.
pub proof fn lemma_stack_po_is_pof(ns: Seq<Node>)
    ensures
        spec_stack_po(ns) == spec_postorder_forest(ns),
    decreases ns.len(),
{
    if ns.len() > 0 {
        lemma_stack_po_is_pof(ns.drop_last());
        lemma_pof_append(ns.drop_last(), seq![ns.last()]);
        assert(ns.drop_last() + seq![ns.last()] =~= ns);
        lemma_pof_singleton(ns.last());
    }
}

/// The stack listing also concatenates over stack concatenation.
pub proof fn lemma_stack_po_append(a: Seq<Node>, b: Seq<Node>)
    ensures
        spec_stack_po(a + b) == spec_stack_po(a) + spec_stack_po(b),
    decreases b.len(),
{
    if b.len() == 0 {
        assert(a + b =~= a);
        assert(spec_stack_po(a) + spec_stack_po(b) =~= spec_stack_po(a));
    } else {
        assert((a + b).drop_last() =~= a + b.drop_last());
        assert((a + b).last() == b.last());
        lemma_stack_po_append(a, b.drop_last());
        assert(spec_stack_po(a + b) =~= spec_stack_po(a) + spec_stack_po(b));
    }
}

/// A post-order listing is never shorter than its forest: each root
/// contributes at least itself.
pub proof fn lemma_pof_len(ns: Seq<Node>)
    ensures
        spec_postorder_forest(ns).len() >= ns.len(),
    decreases ns.len(),
{
    if ns.len() > 0 {
        lemma_pof_len(ns.drop_first());
        lemma_po_len(ns[0]);
    }
}

/// Every root of a forest appears in the forest's post-order listing.
pub proof fn lemma_pof_contains_root(ns: Seq<Node>, k: int)
    requires
        0 <= k < ns.len(),
    ensures
        exists|j: int|
            0 <= j < spec_postorder_forest(ns).len() && spec_postorder_forest(ns)[j] == ns[k],
    decreases k,
{
    let po = spec_postorder_forest(ns);
    let head = spec_postorder(ns[0]);
    if k == 0 {
        let j = head.len() - 1;
        assert(head.last() == ns[0]);
        assert(po[j] == ns[0]);
    } else {
        let rest = ns.drop_first();
        lemma_pof_contains_root(rest, k - 1);
        let j0 = choose|j0: int|
            0 <= j0 < spec_postorder_forest(rest).len() && spec_postorder_forest(rest)[j0]
                == rest[k - 1];
        assert(rest[k - 1] == ns[k]);
        assert(po[head.len() + j0] == ns[k]);
    }
}

/// Law: children precede their parents. If the node at post-order position
/// `i` has a child, that child stands at some strictly earlier position —
/// so, ids being post-order positions, every child's id is strictly less
/// than its parent's.
pub proof fn lemma_child_id_below_parent(ns: Seq<Node>, i: int, k: int)
    requires
        0 <= i < spec_postorder_forest(ns).len(),
        0 <= k < spec_postorder_forest(ns)[i].children@.len(),
    ensures
        exists|j: int|
            0 <= j < i && spec_postorder_forest(ns)[j] == spec_postorder_forest(ns)[i].children@[k],
    decreases spec_postorder_forest(ns).len(),
{
    let po = spec_postorder_forest(ns);
    let n0 = ns[0];
    let head = spec_postorder(n0);
    let sub = spec_postorder_forest(n0.children@);
    let rest = spec_postorder_forest(ns.drop_first());
    assert(po == head + rest);
    assert(head == sub + seq![n0]);
    if i < sub.len() {
        // inside the first root's child forest
        assert(sub.len() <= head.len());
        lemma_pof_singleton(n0);
        assert(po[i] == sub[i]);
        lemma_child_id_below_parent(n0.children@, i, k);
        let j = choose|j: int| 0 <= j < i && sub[j] == sub[i].children@[k];
        assert(po[j] == sub[j]);
    } else if i == sub.len() {
        // the first root itself: its child is a root of its child forest
        assert(po[i] == n0);
        lemma_pof_contains_root(n0.children@, k);
        let j = choose|j: int| 0 <= j < sub.len() && sub[j] == n0.children@[k];
        assert(po[j] == sub[j]);
    } else {
        // inside the rest of the forest
        assert(po[i] == rest[i - head.len()]);
        lemma_child_id_below_parent(ns.drop_first(), i - head.len(), k);
        let j = choose|j: int|
            0 <= j < i - head.len() && #[trigger] rest[j] == rest[i - head.len()].children@[k];
        assert(po[head.len() + j] == rest[j]);
    }
}

/// A name that stands at position `j` of a table is found by the lookup,
/// at its first occurrence, which is no later than `j`.
pub proof fn lemma_lookup_finds(tbl: Seq<(Seq<char>, u32)>, name: Seq<char>, j: int)
    requires
        0 <= j < tbl.len(),
        tbl[j].0 == name,
    ensures
        exists|jf: int|
            0 <= jf <= j && (#[trigger] tbl[jf]).0 == name && spec_lookup(tbl, name) == Some(
                tbl[jf].1,
            ),
    decreases j,
{
    if tbl[0].0 == name {
        assert(spec_lookup(tbl, name) == Some(tbl[0].1));
        assert(tbl[0].0 == name && spec_lookup(tbl, name) == Some(tbl[0].1));
    } else {
        let rest = tbl.drop_first();
        lemma_lookup_finds(rest, name, j - 1);
        let jf0 = choose|jf0: int|
            0 <= jf0 <= j - 1 && (#[trigger] rest[jf0]).0 == name && spec_lookup(rest, name)
                == Some(rest[jf0].1);
        assert(tbl[jf0 + 1] == rest[jf0]);
        assert(spec_lookup(tbl, name) == spec_lookup(rest, name));
    }
}

/// The ids of a node's children, each resolved against the table built so
/// far, with the first missing child's error.
pub open spec fn spec_children_ids(cs: Seq<Node>, tbl: Seq<(Seq<char>, u32)>) -> Result<
    Seq<u32>,
    GltfError,
>
    decreases cs.len(),
{
    if cs.len() == 0 {
        Ok(Seq::empty())
    } else {
        match spec_children_ids(cs.drop_last(), tbl) {
            Err(e) => Err(e),
            Ok(s) => match spec_lookup(tbl, cs.last().name@) {
                None => Err(GltfError::UnknownNode { name: cs.last().name }),
                Some(id) => Ok(s.push(id)),
            },
        }
    }
}

/// A missing child among the first `i` fails the whole resolution.
pub proof fn lemma_children_prefix_err(cs: Seq<Node>, tbl: Seq<(Seq<char>, u32)>, i: int)
    requires
        0 <= i <= cs.len(),
        spec_children_ids(cs.take(i), tbl) is Err,
    ensures
        spec_children_ids(cs, tbl) == spec_children_ids(cs.take(i), tbl),
    decreases cs.len() - i,
{
    if i < cs.len() {
        assert(cs.take(i + 1).drop_last() =~= cs.take(i));
        lemma_children_prefix_err(cs, tbl, i + 1);
    } else {
        assert(cs.take(i) =~= cs);
    }
}

/// The document node one model node flattens to, against the id table built
/// so far (which already holds the node itself) and the mesh table: its
/// mesh reference, child ids and transform fields — or the first resolution
/// failure.
pub open spec fn spec_node_entry(
    n: Node,
    tbl: Seq<(Seq<char>, u32)>,
    mesh_tbl: Seq<(Seq<char>, u32)>,
) -> Result<gltf::NodeV, GltfError> {
    let mesh_r: Result<Option<u32>, GltfError> = match n.mesh {
        None => Ok(None),
        Some(nm) => match spec_lookup(mesh_tbl, nm@) {
            None => Err(GltfError::UnknownMesh { name: nm }),
            Some(id) => Ok(Some(id)),
        },
    };
    match mesh_r {
        Err(e) => Err(e),
        Ok(mesh) => match spec_children_ids(n.children@, tbl) {
            Err(e) => Err(e),
            Ok(ch) => {
                let rot_finite = match n.rotation {
                    None => true,
                    Some(rv) => is_finite_bits(rv.x) && is_finite_bits(rv.y) && is_finite_bits(
                        rv.z,
                    ),
                };
                if !rot_finite {
                    Err(GltfError::NonFiniteRotation)
                } else {
                    Ok(
                        gltf::NodeV {
                            mesh,
                            children: ch,
                            translation: match n.offset {
                                Some(o) => Some(seq![o.x, o.y, o.z]),
                                None => None,
                            },
                            rotation: match n.rotation {
                                Some(rv) => Some(quat_bits(rv.x, rv.y, rv.z)),
                                None => None,
                            },
                            scale: match n.scale {
                                Some(s) => Some(seq![s.x, s.y, s.z]),
                                None => None,
                            },
                        },
                    )
                }
            },
        },
    }
}

/// The id table and document node table for a post-order listing: each node
/// gets the next id, under a fresh name, and flattens by `spec_node_entry`
/// — or the first failure.
pub open spec fn spec_node_tables(po: Seq<Node>, mesh_tbl: Seq<(Seq<char>, u32)>) -> Result<
    (Seq<(Seq<char>, u32)>, Seq<gltf::NodeV>),
    GltfError,
>
    decreases po.len(),
{
    if po.len() == 0 {
        Ok((Seq::empty(), Seq::empty()))
    } else {
        match spec_node_tables(po.drop_last(), mesh_tbl) {
            Err(e) => Err(e),
            Ok((tbl, outs)) => {
                let n = po.last();
                if spec_lookup(tbl, n.name@) is Some {
                    Err(GltfError::DuplicateName { name: n.name })
                } else {
                    let tbl2 = tbl.push((n.name@, (po.len() - 1) as u32));
                    match spec_node_entry(n, tbl2, mesh_tbl) {
                        Err(e) => Err(e),
                        Ok(nv) => Ok((tbl2, outs.push(nv))),
                    }
                }
            },
        }
    }
}

/// A failure among the first `i` nodes fails the whole flattening.
pub proof fn lemma_node_tables_prefix_err(po: Seq<Node>, mesh_tbl: Seq<(Seq<char>, u32)>, i: int)
    requires
        0 <= i <= po.len(),
        spec_node_tables(po.take(i), mesh_tbl) is Err,
    ensures
        spec_node_tables(po, mesh_tbl) == spec_node_tables(po.take(i), mesh_tbl),
    decreases po.len() - i,
{
    if i < po.len() {
        assert(po.take(i + 1).drop_last() =~= po.take(i));
        assert(po.take(i + 1).len() - 1 == i);
        lemma_node_tables_prefix_err(po, mesh_tbl, i + 1);
    } else {
        assert(po.take(i) =~= po);
    }
}

/// In a successfully flattened table, entry `m` files the `m`-th
/// post-order node's name under id `m`.
pub proof fn lemma_node_table_shape(po: Seq<Node>, mesh_tbl: Seq<(Seq<char>, u32)>)
    requires
        spec_node_tables(po, mesh_tbl) is Ok,
    ensures
        ({
            let tbl = spec_node_tables(po, mesh_tbl)->Ok_0.0;
            &&& tbl.len() == po.len()
            &&& forall|m: int| 0 <= m < po.len() ==> #[trigger] tbl[m] == (po[m].name@, m as u32)
        }),
    decreases po.len(),
{
    if po.len() > 0 {
        lemma_node_table_shape(po.drop_last(), mesh_tbl);
    }
}

/// Law: resolved child ids lie strictly below their parent's id. When the
/// forest flattens successfully, looking up any child of the node at
/// post-order id `i` yields an id strictly less than `i`: children are
/// always assigned before their parents.
pub proof fn lemma_child_resolves_below_parent(
    ns: Seq<Node>,
    mesh_tbl: Seq<(Seq<char>, u32)>,
    i: int,
    k: int,
)
    requires
        spec_node_tables(spec_postorder_forest(ns), mesh_tbl) is Ok,
        spec_postorder_forest(ns).len() <= 0xFFFF_FFFF,
        0 <= i < spec_postorder_forest(ns).len(),
        0 <= k < spec_postorder_forest(ns)[i].children@.len(),
    ensures
        ({
            let po = spec_postorder_forest(ns);
            let tbl = spec_node_tables(po, mesh_tbl)->Ok_0.0;
            spec_lookup(tbl, po[i].children@[k].name@) matches Some(id) && (id as int) < i
        }),
{
    let po = spec_postorder_forest(ns);
    let tbl = spec_node_tables(po, mesh_tbl)->Ok_0.0;
    let name = po[i].children@[k].name@;
    lemma_child_id_below_parent(ns, i, k);
    let j = choose|j: int| 0 <= j < i && po[j] == po[i].children@[k];
    lemma_node_table_shape(po, mesh_tbl);
    assert(tbl[j].0 == name);
    lemma_lookup_finds(tbl, name, j);
    let jf = choose|jf: int|
        0 <= jf <= j && (#[trigger] tbl[jf]).0 == name && spec_lookup(tbl, name) == Some(
            tbl[jf].1,
        );
    assert(tbl[jf].1 == jf as u32);
}

/// Flattens the node forest: assigns post-order ids by the explicit
/// two-pass traversal, resolves every reference, and returns the document
/// node table together with the name-to-id table — or the first failure:
/// a duplicate node name, an unknown mesh, an unknown (forward) node
/// reference, or a non-finite rotation.
pub fn build_nodes<'a>(nodes: &'a Vec<Node>, mesh_ids: &Vec<(String, u32)>) -> (r: Result<
    (Vec<gltf::Node>, Vec<(String, u32)>),
    GltfError,
>)
    requires
        spec_postorder_forest(nodes@).len() <= 0xFFFF_FFFF,
    ensures
        match spec_node_tables(spec_postorder_forest(nodes@), view_map(mesh_ids@)) {
            Ok((tbl, outs)) => r matches Ok(p) && view_map(p.1@) == tbl && p.0@.map_values(
                |n: gltf::Node| n@,
            ) == outs,
            Err(e) => r matches Err(e2) && e2 == e,
        },
{
    let ghost po = spec_postorder_forest(nodes@);
    let ghost vmesh = view_map(mesh_ids@);

    let mut node_children: Vec<&'a Node> = Vec::new();
    let mut node_stack: Vec<&'a Node> = Vec::new();

    let rn = nodes.len();
    for i in 0..rn
        invariant
            rn == nodes@.len(),
            derefs(node_children@) =~= nodes@.take(i as int),
            node_stack@.len() == 0,
    {
        let ghost nc_old = node_children@;
        node_children.push(&nodes[i]);
        proof {
            lemma_derefs_push(nc_old, &nodes@[i as int]);
            assert(nodes@.take(i + 1) =~= nodes@.take(i as int).push(nodes@[i as int]));
        }
    }
    proof {
        assert(nodes@.take(rn as int) =~= nodes@);
        assert(derefs(node_children@) =~= nodes@);
        lemma_stack_po_is_pof(nodes@);
        assert(derefs(node_stack@).reverse() =~= Seq::<Node>::empty());
        assert(spec_stack_po(derefs(node_children@)) + derefs(node_stack@).reverse() =~= po);
    }

    while node_children.len() > 0
        invariant
            spec_stack_po(derefs(node_children@)) + derefs(node_stack@).reverse() =~= po,
        decreases spec_stack_po(derefs(node_children@)).len(),
    {
        let ghost p_old = derefs(node_children@);
        let ghost s_old = derefs(node_stack@);
        let last = node_children.remove(node_children.len() - 1);
        proof {
            assert(derefs(node_children@) =~= p_old.drop_last());
            assert(*last == p_old.last());
        }
        let ghost front = derefs(node_children@);
        let m = last.children.len();
        for j in 0..m
            invariant
                m == last.children@.len(),
                derefs(node_children@) =~= front + last.children@.take(j as int),
                node_stack@.len() == s_old.len(),
                derefs(node_stack@) == s_old,
        {
            let ghost nc_old = node_children@;
            node_children.push(&last.children[j]);
            proof {
                lemma_derefs_push(nc_old, &last.children@[j as int]);
                assert(front + last.children@.take(j + 1) =~= (front + last.children@.take(
                    j as int,
                )).push(last.children@[j as int]));
            }
        }
        let ghost ns_old = node_stack@;
        node_stack.push(last);
        proof {
            assert(last.children@.take(m as int) =~= last.children@);
            assert(derefs(node_children@) =~= front + last.children@);
            lemma_derefs_push(ns_old, last);
            assert(derefs(node_stack@) =~= s_old.push(p_old.last()));
            // the stack listing loses exactly the popped node
            lemma_stack_po_append(front, last.children@);
            lemma_stack_po_is_pof(last.children@);
            assert(spec_stack_po(p_old) == spec_stack_po(front) + spec_postorder(p_old.last()));
            assert(s_old.push(p_old.last()).reverse() =~= seq![p_old.last()]
                + s_old.reverse());
            assert(spec_stack_po(derefs(node_children@)) + derefs(node_stack@).reverse()
                =~= spec_stack_po(p_old) + s_old.reverse());
        }
    }

    let ghost s0 = derefs(node_stack@);
    proof {
        assert(derefs(node_children@) =~= Seq::<Node>::empty());
        assert(s0.reverse() =~= po);
        assert(s0.len() == po.len());
    }

    let mut ids: Vec<(String, u32)> = Vec::new();
    let mut out: Vec<gltf::Node> = Vec::new();
    let mut k: usize = 0;

    while node_stack.len() > 0
        invariant
            s0.reverse() == po,
            po == spec_postorder_forest(nodes@),
            vmesh == view_map(mesh_ids@),
            po.len() <= 0xFFFF_FFFF,
            k + node_stack@.len() == s0.len(),
            s0.len() == po.len(),
            derefs(node_stack@) =~= s0.take(s0.len() - k),
            out@.len() == k,
            spec_node_tables(po.take(k as int), vmesh) matches Ok(p) && view_map(ids@) == p.0
                && out@.map_values(|n: gltf::Node| n@) == p.1,
        decreases node_stack@.len(),
    {
        let ghost s_cur = derefs(node_stack@);
        let last = node_stack.remove(node_stack.len() - 1);
        proof {
            assert(*last == s_cur.last());
            assert(s_cur.last() == s0[s0.len() - 1 - k as int]);
            assert(po[k as int] == s0.reverse()[k as int]);
            assert(*last == po[k as int]);
            assert(derefs(node_stack@) =~= s0.take(s0.len() - (k + 1)));
            assert(po.take(k + 1).drop_last() =~= po.take(k as int));
            assert(po.take(k + 1).last() == po[k as int]);
            assert(po.take(k + 1).len() - 1 == k as int);
        }

        if lookup(&ids, &last.name).is_some() {
            proof {
                lemma_node_tables_prefix_err(po, vmesh, k + 1);
            }
            return Err(GltfError::DuplicateName { name: last.name.clone() });
        }
        let ghost tbl_pre = view_map(ids@);
        ids.push((last.name.clone(), k as u32));
        let ghost tbl2 = view_map(ids@);
        proof {
            assert(tbl2 =~= tbl_pre.push((last.name@, k as u32)));
        }

        let mesh_id: Option<u32> = match &last.mesh {
            None => None,
            Some(nm) => match lookup(mesh_ids, nm) {
                None => {
                    proof {
                        lemma_node_tables_prefix_err(po, vmesh, k + 1);
                    }
                    return Err(GltfError::UnknownMesh { name: nm.clone() });
                },
                Some(id) => Some(id),
            },
        };

        let mut ch: Vec<u32> = Vec::new();
        let cm = last.children.len();
        proof {
            assert(spec_children_ids(last.children@.take(0), tbl2) matches Ok(s) && s
                =~= Seq::<u32>::empty());
        }
        for j in 0..cm
            invariant
                cm == last.children@.len(),
                tbl2 == view_map(ids@),
                spec_children_ids(last.children@.take(j as int), tbl2) matches Ok(s) && s == ch@,
                po == spec_postorder_forest(nodes@),
                vmesh == view_map(mesh_ids@),
                0 <= k < po.len() <= 0xFFFF_FFFF,
                *last == po[k as int],
                po.take(k + 1).drop_last() == po.take(k as int),
                po.take(k + 1).last() == po[k as int],
                spec_node_tables(po.take(k as int), vmesh) matches Ok(p) && spec_lookup(
                    p.0,
                    po[k as int].name@,
                ) is None && tbl2 == p.0.push((po[k as int].name@, k as u32)),
                match po[k as int].mesh {
                    None => true,
                    Some(nm) => spec_lookup(vmesh, nm@) is Some,
                },
        {
            proof {
                assert(last.children@.take(j + 1).drop_last() =~= last.children@.take(j as int));
                assert(last.children@.take(j + 1).last() == last.children@[j as int]);
            }
            match lookup(&ids, &last.children[j].name) {
                None => {
                    proof {
                        lemma_children_prefix_err(last.children@, tbl2, j + 1);
                        lemma_node_tables_prefix_err(po, vmesh, k + 1);
                    }
                    return Err(GltfError::UnknownNode { name: last.children[j].name.clone() });
                },
                Some(id) => {
                    ch.push(id);
                },
            }
        }
        proof {
            assert(last.children@.take(cm as int) =~= last.children@);
        }

        let rotation: Option<[u32; 4]> = match &last.rotation {
            None => None,
            Some(rv) => {
                if !(f_is_finite(rv.x) && f_is_finite(rv.y) && f_is_finite(rv.z)) {
                    proof {
                        lemma_node_tables_prefix_err(po, vmesh, k + 1);
                    }
                    return Err(GltfError::NonFiniteRotation);
                }
                Some(quat_of_euler_deg(*rv))
            },
        };
        let translation: Option<[u32; 3]> = match &last.offset {
            None => None,
            Some(o) => Some([o.x, o.y, o.z]),
        };
        let scale: Option<[u32; 3]> = match &last.scale {
            None => None,
            Some(s) => Some([s.x, s.y, s.z]),
        };
        let gnode = gltf::Node { mesh: mesh_id, children: ch, translation, rotation, scale };
        let ghost outs_pre = out@.map_values(|n: gltf::Node| n@);
        proof {
            let nv = spec_node_entry(po[k as int], tbl2, vmesh);
            assert(nv is Ok);
            assert(gnode@.children =~= nv->Ok_0.children);
            match po[k as int].offset {
                Some(o) => assert(gnode@.translation->0 =~= nv->Ok_0.translation->0),
                None => {},
            }
            match po[k as int].scale {
                Some(s) => assert(gnode@.scale->0 =~= nv->Ok_0.scale->0),
                None => {},
            }
            match po[k as int].rotation {
                Some(rv) => assert(gnode@.rotation->0 =~= nv->Ok_0.rotation->0),
                None => {},
            }
            assert(gnode@ == nv->Ok_0);
        }
        out.push(gnode);
        k = k + 1;
        proof {
            assert(out@.map_values(|n: gltf::Node| n@) =~= outs_pre.push(gnode@));
        }
    }
    proof {
        assert(po.take(k as int) =~= po);
    }
    Ok((out, ids))
}

} // verus!
