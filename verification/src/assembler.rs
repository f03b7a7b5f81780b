//! The scene assembler: turns a parsed model into the flat document tables
//! and the packed binary data, with byte-exact layout.
use vstd::prelude::*;

use crate::error::GltfError;
use crate::fbits::{
    div_bits, f_div, f_gt, f_is_finite, f_max, f_min, ieee_gt, is_finite_bits, max_bits, min_bits,
    F_255, F_MINUS_ONE, F_ONE, F_ZERO,
};
use crate::geometry::{spec_geometry_result, Geometry};
use crate::geometry_buffer::{
    spec_flatten, spec_max_fold, spec_min_fold, GeometryBuffer, Triangle, F_LARGEST, F_SMALLEST,
};
use crate::gltf;
use crate::matrix::{quat_bits, quat_of_euler_deg};
use crate::model::{spec_max3, spec_min3, Material, Model, Vector3};
use crate::names::{lookup, spec_lookup, view_map};
use crate::nodes::{build_nodes, spec_node_tables, spec_postorder_forest};

verus! {

/// The component type tag for 32-bit floats.
pub const COMPONENT_F32: u32 = 5126;

/// The buffer-view target hint for vertex data.
pub const TARGET_VERTICES: u32 = 34962;

/// A byte-scaled color channel: one that compares greater than one.
pub open spec fn spec_color_large(c: Seq<u32>) -> bool {
    exists|i: int| 0 <= i < c.len() && ieee_gt(#[trigger] c[i], F_ONE)
}

/// The normalization the materials table applies to a base color: when any
/// channel exceeds one the whole color is taken as byte-scaled and every
/// channel is divided by 255; otherwise the color is kept as it is.
pub open spec fn spec_normalize_color(c: Seq<u32>) -> Seq<u32> {
    if spec_color_large(c) {
        c.map_values(|x: u32| div_bits(x, F_255))
    } else {
        c
    }
}

/// Rescales a byte-scaled base color to the unit range, leaving a unit
/// color untouched: the all-or-nothing policy of `spec_normalize_color`.
pub fn normalize_color(c: [u32; 4]) -> (r: [u32; 4])
    ensures
        r@ == spec_normalize_color(c@),
{
    let is_large = f_gt(c[0], F_ONE) || f_gt(c[1], F_ONE) || f_gt(c[2], F_ONE) || f_gt(
        c[3],
        F_ONE,
    );
    if is_large {
        let r = [f_div(c[0], F_255), f_div(c[1], F_255), f_div(c[2], F_255), f_div(c[3], F_255)];
        proof {
            assert(spec_color_large(c@));
            assert(r@ =~= c@.map_values(|x: u32| div_bits(x, F_255)));
        }
        r
    } else {
        proof {
            assert(forall|i: int| 0 <= i < 4 ==> !ieee_gt(#[trigger] c@[i], F_ONE));
        }
        c
    }
}

/// The document material one declared material becomes: its base color
/// normalized, its factors kept, always double sided.
pub open spec fn spec_material_v(m: Material) -> gltf::MaterialV {
    gltf::MaterialV {
        name: m.name@,
        base_color_factor: spec_normalize_color(m.base_color@),
        metallic_factor: m.metallic,
        roughness_factor: m.roughness,
        double_sided: true,
    }
}

/// The material id table: sequential ids in declaration order, each name
/// fresh — or the first duplicate's error.
pub open spec fn spec_material_ids(ms: Seq<Material>) -> Result<Seq<(Seq<char>, u32)>, GltfError>
    decreases ms.len(),
{
    if ms.len() == 0 {
        Ok(Seq::empty())
    } else {
        match spec_material_ids(ms.drop_last()) {
            Err(e) => Err(e),
            Ok(tbl) => {
                if spec_lookup(tbl, ms.last().name@) is Some {
                    Err(GltfError::DuplicateName { name: ms.last().name })
                } else {
                    Ok(tbl.push((ms.last().name@, (ms.len() - 1) as u32)))
                }
            },
        }
    }
}

/// A duplicate among the first `i` materials fails the whole table.
pub proof fn lemma_material_ids_prefix_err(ms: Seq<Material>, i: int)
    requires
        0 <= i <= ms.len(),
        spec_material_ids(ms.take(i)) is Err,
    ensures
        spec_material_ids(ms) == spec_material_ids(ms.take(i)),
    decreases ms.len() - i,
{
    if i < ms.len() {
        assert(ms.take(i + 1).drop_last() =~= ms.take(i));
        lemma_material_ids_prefix_err(ms, i + 1);
    } else {
        assert(ms.take(i) =~= ms);
    }
}

/// Builds the document materials table and the name-to-id table: sequential
/// ids in declaration order, base colors normalized — or the first
/// duplicate name's error.
pub fn assemble_materials(mats: &Vec<Material>) -> (r: Result<
    (Vec<gltf::Material>, Vec<(String, u32)>),
    GltfError,
>)
    requires
        mats@.len() <= 0xFFFF_FFFF,
    ensures
        match spec_material_ids(mats@) {
            Ok(tbl) => r matches Ok(p) && view_map(p.1@) == tbl && p.0@.map_values(
                |g: gltf::Material| g@,
            ) == mats@.map_values(|m: Material| spec_material_v(m)),
            Err(e) => r matches Err(e2) && e2 == e,
        },
{
    let mut out: Vec<gltf::Material> = Vec::new();
    let mut ids: Vec<(String, u32)> = Vec::new();
    let n = mats.len();
    for i in 0..n
        invariant
            n == mats@.len() <= 0xFFFF_FFFF,
            out@.len() == i,
            spec_material_ids(mats@.take(i as int)) matches Ok(tbl) && view_map(ids@) == tbl,
            out@.map_values(|g: gltf::Material| g@) == mats@.take(i as int).map_values(
                |m: Material| spec_material_v(m),
            ),
    {
        proof {
            assert(mats@.take(i + 1).drop_last() =~= mats@.take(i as int));
            assert(mats@.take(i + 1).last() == mats@[i as int]);
            assert(mats@.take(i + 1).len() - 1 == i as int);
        }
        let m = &mats[i];
        if lookup(&ids, &m.name).is_some() {
            proof {
                lemma_material_ids_prefix_err(mats@, i + 1);
            }
            return Err(GltfError::DuplicateName { name: m.name.clone() });
        }
        let base_color = normalize_color(m.base_color);
        let gm = gltf::Material {
            name: m.name.clone(),
            pbr_metallic_roughness: gltf::PBRMetallicRoughness {
                base_color_factor: base_color,
                metallic_factor: m.metallic,
                roughness_factor: m.roughness,
            },
            double_sided: true,
        };
        let ghost outs_pre = out@.map_values(|g: gltf::Material| g@);
        proof {
            assert(gm@ == spec_material_v(mats@[i as int]));
        }
        out.push(gm);
        ids.push((m.name.clone(), i as u32));
        proof {
            assert(view_map(ids@) =~= view_map(ids@.drop_last()).push((m.name@, i as u32)));
            assert(out@.map_values(|g: gltf::Material| g@) =~= outs_pre.push(
                spec_material_v(mats@[i as int]),
            ));
            assert(mats@.take(i + 1).map_values(|mm: Material| spec_material_v(mm))
                =~= mats@.take(i as int).map_values(|mm: Material| spec_material_v(mm)).push(
                spec_material_v(mats@[i as int]),
            ));
        }
    }
    proof {
        assert(mats@.take(n as int) =~= mats@);
    }
    Ok((out, ids))
}

/// The running vertex stream after one primitive's geometry list: each
/// descriptor generated and flattened, appended in order — or the first
/// generation failure.
pub open spec fn spec_prim_vertices(gs: Seq<Geometry>, verts: Seq<Vector3>) -> Result<
    Seq<Vector3>,
    GltfError,
>
    decreases gs.len(),
{
    if gs.len() == 0 {
        Ok(verts)
    } else {
        match spec_prim_vertices(gs.drop_last(), verts) {
            Err(e) => Err(e),
            Ok(v) => match spec_geometry_result(gs.last()) {
                Err(e) => Err(e),
                Ok((gv, gt)) => Ok(v + spec_flatten(gv, gt)),
            },
        }
    }
}

/// A failure among the first `i` descriptors fails the whole list.
pub proof fn lemma_prim_vertices_prefix_err(gs: Seq<Geometry>, verts: Seq<Vector3>, i: int)
    requires
        0 <= i <= gs.len(),
        spec_prim_vertices(gs.take(i), verts) is Err,
    ensures
        spec_prim_vertices(gs, verts) == spec_prim_vertices(gs.take(i), verts),
    decreases gs.len() - i,
{
    if i < gs.len() {
        assert(gs.take(i + 1).drop_last() =~= gs.take(i));
        lemma_prim_vertices_prefix_err(gs, verts, i + 1);
    } else {
        assert(gs.take(i) =~= gs);
    }
}

/// The assembler's running packing state: the global vertex stream and the
/// buffer-view and accessor tables built so far.
pub ghost struct MeshState {
    pub verts: Seq<Vector3>,
    pub views: Seq<gltf::BufferView>,
    pub accs: Seq<gltf::AccessorV>,
}

/// What packing one primitive does to the state: its geometry appended to
/// the vertex stream, one buffer view covering exactly the appended byte
/// range, one three-float accessor whose bounds are the componentwise
/// minimum and maximum over only the vertices this primitive contributed
/// (the same folds `min_position` and `max_position` report), and the
/// primitive entry referencing them — or the first failure: a geometry
/// error, the 32-bit byte layout overflowing, or an unknown material name.
pub open spec fn spec_primitive(
    p: crate::model::Primitive,
    st: MeshState,
    mat_tbl: Seq<(Seq<char>, u32)>,
) -> Result<(MeshState, gltf::Primitive), GltfError> {
    match spec_prim_vertices(p.geometry@, st.verts) {
        Err(e) => Err(e),
        Ok(v2) => {
            if v2.len() * 12 > 0xFFFF_FFFF || st.views.len() >= 0xFFFF_FFFF || st.accs.len()
                >= 0xFFFF_FFFF {
                Err(GltfError::BufferTooLarge)
            } else {
                let fresh = v2.subrange(st.verts.len() as int, v2.len() as int);
                let bmin = spec_min_fold(
                    Vector3 { x: F_LARGEST, y: F_LARGEST, z: F_LARGEST },
                    fresh,
                );
                let bmax = spec_max_fold(
                    Vector3 { x: F_SMALLEST, y: F_SMALLEST, z: F_SMALLEST },
                    fresh,
                );
                let view = gltf::BufferView {
                    buffer: 0,
                    byte_offset: (st.verts.len() * 12) as u32,
                    byte_length: (v2.len() * 12 - st.verts.len() * 12) as u32,
                    target: Some(TARGET_VERTICES),
                };
                let acc = gltf::AccessorV {
                    buffer_view: st.views.len() as u32,
                    byte_offset: 0,
                    component_type: COMPONENT_F32,
                    count: (v2.len() - st.verts.len()) as u32,
                    accessor_type: gltf::AccessorType::Vec3,
                    max: seq![bmax.x, bmax.y, bmax.z],
                    min: seq![bmin.x, bmin.y, bmin.z],
                };
                let mat: Result<Option<u32>, GltfError> = match p.material {
                    None => Ok(None),
                    Some(nm) => match spec_lookup(mat_tbl, nm@) {
                        None => Err(GltfError::UnknownMaterial { name: nm }),
                        Some(id) => Ok(Some(id)),
                    },
                };
                match mat {
                    Err(e) => Err(e),
                    Ok(material) => Ok(
                        (
                            MeshState {
                                verts: v2,
                                views: st.views.push(view),
                                accs: st.accs.push(acc),
                            },
                            gltf::Primitive {
                                attributes: gltf::Attributes {
                                    position: Some(st.accs.len() as u32),
                                },
                                material,
                            },
                        ),
                    ),
                }
            }
        },
    }
}

/// Law: a packed primitive's accessor bounds are the componentwise bounds
/// over only the vertices that primitive contributed — exactly the folds
/// `GeometryBuffer::min_position` and `max_position` report for a buffer
/// holding that vertex run alone.
pub proof fn lemma_primitive_bounds(
    p: crate::model::Primitive,
    st: MeshState,
    mat_tbl: Seq<(Seq<char>, u32)>,
)
    requires
        spec_primitive(p, st, mat_tbl) is Ok,
    ensures
        ({
            let st2 = spec_primitive(p, st, mat_tbl)->Ok_0.0;
            let fresh = st2.verts.subrange(st.verts.len() as int, st2.verts.len() as int);
            let lo = spec_min_fold(Vector3 { x: F_LARGEST, y: F_LARGEST, z: F_LARGEST }, fresh);
            let hi = spec_max_fold(
                Vector3 { x: F_SMALLEST, y: F_SMALLEST, z: F_SMALLEST },
                fresh,
            );
            &&& st2.accs.len() > 0
            &&& st2.accs.last().min == seq![lo.x, lo.y, lo.z]
            &&& st2.accs.last().max == seq![hi.x, hi.y, hi.z]
        }),
{
}

/// The state and primitive entries after a mesh's primitive list, packed in
/// order — or the first failure.
pub open spec fn spec_prims(
    ps: Seq<crate::model::Primitive>,
    st: MeshState,
    mat_tbl: Seq<(Seq<char>, u32)>,
) -> Result<(MeshState, Seq<gltf::Primitive>), GltfError>
    decreases ps.len(),
{
    if ps.len() == 0 {
        Ok((st, Seq::empty()))
    } else {
        match spec_prims(ps.drop_last(), st, mat_tbl) {
            Err(e) => Err(e),
            Ok((st1, out)) => match spec_primitive(ps.last(), st1, mat_tbl) {
                Err(e) => Err(e),
                Ok((st2, prim)) => Ok((st2, out.push(prim))),
            },
        }
    }
}

/// A failure among the first `i` primitives fails the whole list.
pub proof fn lemma_prims_prefix_err(
    ps: Seq<crate::model::Primitive>,
    st: MeshState,
    mat_tbl: Seq<(Seq<char>, u32)>,
    i: int,
)
    requires
        0 <= i <= ps.len(),
        spec_prims(ps.take(i), st, mat_tbl) is Err,
    ensures
        spec_prims(ps, st, mat_tbl) == spec_prims(ps.take(i), st, mat_tbl),
    decreases ps.len() - i,
{
    if i < ps.len() {
        assert(ps.take(i + 1).drop_last() =~= ps.take(i));
        lemma_prims_prefix_err(ps, st, mat_tbl, i + 1);
    } else {
        assert(ps.take(i) =~= ps);
    }
}

/// The state, mesh table and mesh id table after the declared meshes,
/// packed in order: each mesh gets the next id under a fresh name and its
/// primitives are packed into the running state — or the first failure.
pub open spec fn spec_meshes(
    ms: Seq<crate::model::Mesh>,
    st: MeshState,
    mat_tbl: Seq<(Seq<char>, u32)>,
) -> Result<(MeshState, Seq<Seq<gltf::Primitive>>, Seq<(Seq<char>, u32)>), GltfError>
    decreases ms.len(),
{
    if ms.len() == 0 {
        Ok((st, Seq::empty(), Seq::empty()))
    } else {
        match spec_meshes(ms.drop_last(), st, mat_tbl) {
            Err(e) => Err(e),
            Ok((st1, out, tbl)) => {
                let m = ms.last();
                if spec_lookup(tbl, m.name@) is Some {
                    Err(GltfError::DuplicateName { name: m.name })
                } else {
                    match spec_prims(m.primitives@, st1, mat_tbl) {
                        Err(e) => Err(e),
                        Ok((st2, prims)) => Ok(
                            (st2, out.push(prims), tbl.push((m.name@, (ms.len() - 1) as u32))),
                        ),
                    }
                }
            },
        }
    }
}

/// A failure among the first `i` meshes fails the whole table.
pub proof fn lemma_meshes_prefix_err(
    ms: Seq<crate::model::Mesh>,
    st: MeshState,
    mat_tbl: Seq<(Seq<char>, u32)>,
    i: int,
)
    requires
        0 <= i <= ms.len(),
        spec_meshes(ms.take(i), st, mat_tbl) is Err,
    ensures
        spec_meshes(ms, st, mat_tbl) == spec_meshes(ms.take(i), st, mat_tbl),
    decreases ms.len() - i,
{
    if i < ms.len() {
        assert(ms.take(i + 1).drop_last() =~= ms.take(i));
        assert(ms.take(i + 1).len() - 1 == i);
        lemma_meshes_prefix_err(ms, st, mat_tbl, i + 1);
    } else {
        assert(ms.take(i) =~= ms);
    }
}

/// The packing state the running tables stand for.
pub open spec fn spec_state(
    verts: Seq<Vector3>,
    views: Seq<gltf::BufferView>,
    accs: Seq<gltf::Accessor>,
) -> MeshState {
    MeshState { verts, views, accs: accs.map_values(|a: gltf::Accessor| a@) }
}

/// Packs every declared mesh: generates each primitive's geometry, appends
/// the flattened streams to the global vertex buffer, and emits the buffer
/// views, accessors (with per-primitive bounds) and mesh entries — or the
/// first failure, with the running tables left unspecified.
pub fn assemble_meshes(
    meshes: &Vec<crate::model::Mesh>,
    mat_ids: &Vec<(String, u32)>,
    vertices: &mut Vec<Vector3>,
    views: &mut Vec<gltf::BufferView>,
    accs: &mut Vec<gltf::Accessor>,
) -> (r: Result<(Vec<gltf::Mesh>, Vec<(String, u32)>), GltfError>)
    requires
        meshes@.len() <= 0xFFFF_FFFF,
    ensures
        match spec_meshes(
            meshes@,
            spec_state(old(vertices)@, old(views)@, old(accs)@),
            view_map(mat_ids@),
        ) {
            Ok((st, prims, tbl)) => r matches Ok(p) && {
                &&& final(vertices)@ == st.verts
                &&& final(views)@ == st.views
                &&& final(accs)@.map_values(|a: gltf::Accessor| a@) == st.accs
                &&& p.0@.map_values(|m: gltf::Mesh| m@) == prims
                &&& view_map(p.1@) == tbl
            },
            Err(e) => r matches Err(e2) && e2 == e,
        },
{
    let ghost st0 = spec_state(old(vertices)@, old(views)@, old(accs)@);
    let ghost mat_tbl = view_map(mat_ids@);
    let mut out: Vec<gltf::Mesh> = Vec::new();
    let mut ids: Vec<(String, u32)> = Vec::new();
    let n = meshes.len();
    for i in 0..n
        invariant
            n == meshes@.len() <= 0xFFFF_FFFF,
            st0 == spec_state(old(vertices)@, old(views)@, old(accs)@),
            mat_tbl == view_map(mat_ids@),
            out@.len() == i,
            spec_meshes(meshes@.take(i as int), st0, mat_tbl) matches Ok(t) && {
                &&& vertices@ == t.0.verts
                &&& views@ == t.0.views
                &&& accs@.map_values(|a: gltf::Accessor| a@) == t.0.accs
                &&& out@.map_values(|m: gltf::Mesh| m@) == t.1
                &&& view_map(ids@) == t.2
            },
    {
        proof {
            assert(meshes@.take(i + 1).drop_last() =~= meshes@.take(i as int));
            assert(meshes@.take(i + 1).last() == meshes@[i as int]);
            assert(meshes@.take(i + 1).len() - 1 == i as int);
        }
        let m = &meshes[i];
        if lookup(&ids, &m.name).is_some() {
            proof {
                lemma_meshes_prefix_err(meshes@, st0, mat_tbl, i + 1);
            }
            return Err(GltfError::DuplicateName { name: m.name.clone() });
        }
        let ghost st_mesh = spec_meshes(meshes@.take(i as int), st0, mat_tbl)->Ok_0.0;

        let mut prims: Vec<gltf::Primitive> = Vec::new();
        let pn = m.primitives.len();
        for pi in 0..pn
            invariant
                pn == m.primitives@.len(),
                st0 == spec_state(old(vertices)@, old(views)@, old(accs)@),
                mat_tbl == view_map(mat_ids@),
                meshes@[i as int] == *m,
                0 <= i < meshes@.len() <= 0xFFFF_FFFF,
                meshes@.take(i + 1).drop_last() == meshes@.take(i as int),
                meshes@.take(i + 1).last() == meshes@[i as int],
                spec_meshes(meshes@.take(i as int), st0, mat_tbl) matches Ok(t) && t.0 == st_mesh
                    && spec_lookup(t.2, meshes@[i as int].name@) is None,
                spec_prims(m.primitives@.take(pi as int), st_mesh, mat_tbl) matches Ok(t) && {
                    &&& vertices@ == t.0.verts
                    &&& views@ == t.0.views
                    &&& accs@.map_values(|a: gltf::Accessor| a@) == t.0.accs
                    &&& prims@ == t.1
                },
        {
            proof {
                assert(m.primitives@.take(pi + 1).drop_last() =~= m.primitives@.take(pi as int));
                assert(m.primitives@.take(pi + 1).last() == m.primitives@[pi as int]);
            }
            let p = &m.primitives[pi];
            let ghost st_in = spec_prims(m.primitives@.take(pi as int), st_mesh, mat_tbl)->Ok_0.0;
            let start_vertices_len = vertices.len();

            let gn = p.geometry.len();
            for gi in 0..gn
                invariant
                    gn == p.geometry@.len(),
                    meshes@[i as int] == *m,
                    m.primitives@[pi as int] == *p,
                    0 <= pi < m.primitives@.len(),
                    0 <= i < meshes@.len() <= 0xFFFF_FFFF,
                    meshes@.take(i + 1).drop_last() == meshes@.take(i as int),
                    meshes@.take(i + 1).last() == meshes@[i as int],
                    m.primitives@.take(pi + 1).drop_last() == m.primitives@.take(pi as int),
                    m.primitives@.take(pi + 1).last() == m.primitives@[pi as int],
                    mat_tbl == view_map(mat_ids@),
                    st0 == spec_state(old(vertices)@, old(views)@, old(accs)@),
                    spec_meshes(meshes@.take(i as int), st0, mat_tbl) matches Ok(t) && t.0
                        == st_mesh && spec_lookup(t.2, meshes@[i as int].name@) is None,
                    spec_prims(m.primitives@.take(pi as int), st_mesh, mat_tbl) matches Ok(t)
                        && t.0 == st_in,
                    views@ == st_in.views,
                    accs@.map_values(|a: gltf::Accessor| a@) == st_in.accs,
                    spec_prim_vertices(p.geometry@.take(gi as int), st_in.verts) matches Ok(v)
                        && v == vertices@,
                    start_vertices_len == st_in.verts.len(),
                    vertices@.len() >= st_in.verts.len(),
            {
                proof {
                    assert(p.geometry@.take(gi + 1).drop_last() =~= p.geometry@.take(gi as int));
                    assert(p.geometry@.take(gi + 1).last() == p.geometry@[gi as int]);
                }
                let buf = match p.geometry[gi].generate_geometry() {
                    Ok(b) => b,
                    Err(e) => {
                        proof {
                            assert(spec_prim_vertices(p.geometry@.take(gi + 1), st_in.verts)
                                is Err);
                            lemma_prim_vertices_prefix_err(p.geometry@, st_in.verts, gi + 1);
                            assert(spec_prim_vertices(p.geometry@, st_in.verts) is Err);
                            assert(spec_primitive(m.primitives@[pi as int], st_in, mat_tbl)
                                is Err);
                            assert(spec_prims(m.primitives@.take(pi + 1), st_mesh, mat_tbl)
                                is Err);
                            lemma_prims_prefix_err(m.primitives@, st_mesh, mat_tbl, pi + 1);
                            assert(spec_meshes(meshes@.take(i + 1), st0, mat_tbl) is Err);
                            lemma_meshes_prefix_err(meshes@, st0, mat_tbl, i + 1);
                            assert(spec_meshes(meshes@, st0, mat_tbl) is Err);
                        }
                        return Err(e);
                    },
                };
                let mut redundant = buf.make_redundant();
                vertices.append(&mut redundant);
                proof {
                    assert(vertices@ =~= spec_prim_vertices(
                        p.geometry@.take(gi + 1),
                        st_in.verts,
                    )->Ok_0);
                }
            }
            proof {
                assert(p.geometry@.take(gn as int) =~= p.geometry@);
            }

            if vertices.len() > 357913941 || views.len() >= 0xFFFF_FFFF || accs.len()
                >= 0xFFFF_FFFF {
                proof {
                    assert(vertices@.len() * 12 > 0xFFFF_FFFF || st_in.views.len() >= 0xFFFF_FFFF
                        || st_in.accs.len() >= 0xFFFF_FFFF);
                    lemma_prims_prefix_err(m.primitives@, st_mesh, mat_tbl, pi + 1);
                    lemma_meshes_prefix_err(meshes@, st0, mat_tbl, i + 1);
                }
                return Err(GltfError::BufferTooLarge);
            }

            let mut bmin = Vector3 { x: F_LARGEST, y: F_LARGEST, z: F_LARGEST };
            let mut bmax = Vector3 { x: F_SMALLEST, y: F_SMALLEST, z: F_SMALLEST };
            let vlen = vertices.len();
            for vi in start_vertices_len..vlen
                invariant
                    start_vertices_len <= vi <= vlen,
                    vlen == vertices@.len(),
                    start_vertices_len <= vlen,
                    bmin == spec_min_fold(
                        Vector3 { x: F_LARGEST, y: F_LARGEST, z: F_LARGEST },
                        vertices@.subrange(start_vertices_len as int, vi as int),
                    ),
                    bmax == spec_max_fold(
                        Vector3 { x: F_SMALLEST, y: F_SMALLEST, z: F_SMALLEST },
                        vertices@.subrange(start_vertices_len as int, vi as int),
                    ),
            {
                let v = vertices[vi];
                bmin = bmin.min(v);
                bmax = bmax.max(v);
                proof {
                    let sub1 = vertices@.subrange(start_vertices_len as int, vi + 1);
                    assert(sub1.drop_last() =~= vertices@.subrange(
                        start_vertices_len as int,
                        vi as int,
                    ));
                    assert(sub1.last() == vertices@[vi as int]);
                }
            }

            let byte_offset = (start_vertices_len as u64 * 12) as u32;
            let byte_length = ((vertices.len() as u64 * 12) - byte_offset as u64) as u32;
            views.push(
                gltf::BufferView {
                    buffer: 0,
                    byte_offset,
                    byte_length,
                    target: Some(TARGET_VERTICES),
                },
            );
            let acc_index = accs.len() as u32;
            accs.push(
                gltf::Accessor {
                    buffer_view: (views.len() - 1) as u32,
                    byte_offset: 0,
                    component_type: COMPONENT_F32,
                    count: (vertices.len() - start_vertices_len) as u32,
                    accessor_type: gltf::AccessorType::Vec3,
                    max: vec![bmax.x, bmax.y, bmax.z],
                    min: vec![bmin.x, bmin.y, bmin.z],
                },
            );

            let material: Option<u32> = match &p.material {
                None => None,
                Some(nm) => match lookup(mat_ids, nm) {
                    None => {
                        proof {
                            lemma_prims_prefix_err(m.primitives@, st_mesh, mat_tbl, pi + 1);
                            lemma_meshes_prefix_err(meshes@, st0, mat_tbl, i + 1);
                        }
                        return Err(GltfError::UnknownMaterial { name: nm.clone() });
                    },
                    Some(id) => Some(id),
                },
            };

            let gprim = gltf::Primitive {
                attributes: gltf::Attributes { position: Some(acc_index) },
                material,
            };
            let ghost prims_pre = prims@;
            let ghost accs_pre = accs@.drop_last().map_values(|a: gltf::Accessor| a@);
            prims.push(gprim);
            proof {
                let stp = spec_primitive(m.primitives@[pi as int], st_in, mat_tbl);
                assert(accs@.map_values(|a: gltf::Accessor| a@) =~= accs_pre.push(
                    accs@.last()@,
                ));
                assert(accs@.last()@.max =~= seq![bmax.x, bmax.y, bmax.z]);
                assert(accs@.last()@.min =~= seq![bmin.x, bmin.y, bmin.z]);
                assert(stp is Ok);
                assert(accs@.last()@ == stp->Ok_0.0.accs.last());
                assert(accs@.map_values(|a: gltf::Accessor| a@) =~= stp->Ok_0.0.accs);
                assert(views@ =~= stp->Ok_0.0.views);
                assert(prims@ =~= spec_prims(
                    m.primitives@.take(pi + 1),
                    st_mesh,
                    mat_tbl,
                )->Ok_0.1);
            }
        }
        proof {
            assert(m.primitives@.take(pn as int) =~= m.primitives@);
        }

        let gmesh = gltf::Mesh { primitives: prims };
        let ghost out_pre = out@.map_values(|mm: gltf::Mesh| mm@);
        out.push(gmesh);
        ids.push((m.name.clone(), i as u32));
        proof {
            assert(out@.map_values(|mm: gltf::Mesh| mm@) =~= out_pre.push(
                spec_prims(m.primitives@, st_mesh, mat_tbl)->Ok_0.1,
            ));
            assert(view_map(ids@) =~= view_map(ids@.drop_last()).push((m.name@, i as u32)));
        }
    }
    proof {
        assert(meshes@.take(n as int) =~= meshes@);
    }
    Ok((out, ids))
}

/// The left fold of `f32::max` over a scalar track, from `init`.
pub open spec fn spec_fmax_fold(init: u32, xs: Seq<u32>) -> u32
    decreases xs.len(),
{
    if xs.len() == 0 {
        init
    } else {
        max_bits(spec_fmax_fold(init, xs.drop_last()), xs.last())
    }
}

/// The time track of a channel: each keyframe's time, in order.
pub open spec fn spec_times(kfs: Seq<(u32, Vector3)>) -> Seq<u32> {
    kfs.map_values(|kf: (u32, Vector3)| kf.0)
}

/// The packed rotation track: per keyframe the four components of its
/// normalized quaternion, with the componentwise minimum and maximum
/// quaternions folded from one and minus one — or the first keyframe whose
/// Euler angles are not finite.
pub open spec fn spec_rot_fold(kfs: Seq<(u32, Vector3)>) -> Result<
    (Seq<u32>, Seq<u32>, Seq<u32>),
    GltfError,
>
    decreases kfs.len(),
{
    if kfs.len() == 0 {
        Ok(
            (
                Seq::empty(),
                seq![F_ONE, F_ONE, F_ONE, F_ONE],
                seq![F_MINUS_ONE, F_MINUS_ONE, F_MINUS_ONE, F_MINUS_ONE],
            ),
        )
    } else {
        match spec_rot_fold(kfs.drop_last()) {
            Err(e) => Err(e),
            Ok((d, mn, mx)) => {
                let v = kfs.last().1;
                if !(is_finite_bits(v.x) && is_finite_bits(v.y) && is_finite_bits(v.z)) {
                    Err(GltfError::NonFiniteRotation)
                } else {
                    let q = quat_bits(v.x, v.y, v.z);
                    Ok(
                        (
                            d + seq![q[0], q[1], q[2], q[3]],
                            seq![
                                min_bits(mn[0], q[0]),
                                min_bits(mn[1], q[1]),
                                min_bits(mn[2], q[2]),
                                min_bits(mn[3], q[3]),
                            ],
                            seq![
                                max_bits(mx[0], q[0]),
                                max_bits(mx[1], q[1]),
                                max_bits(mx[2], q[2]),
                                max_bits(mx[3], q[3]),
                            ],
                        ),
                    )
                }
            },
        }
    }
}

/// A non-finite keyframe among the first `i` fails the whole track.
pub proof fn lemma_rot_fold_prefix_err(kfs: Seq<(u32, Vector3)>, i: int)
    requires
        0 <= i <= kfs.len(),
        spec_rot_fold(kfs.take(i)) is Err,
    ensures
        spec_rot_fold(kfs) == spec_rot_fold(kfs.take(i)),
    decreases kfs.len() - i,
{
    if i < kfs.len() {
        assert(kfs.take(i + 1).drop_last() =~= kfs.take(i));
        lemma_rot_fold_prefix_err(kfs, i + 1);
    } else {
        assert(kfs.take(i) =~= kfs);
    }
}

/// A successful rotation track holds four components per keyframe.
pub proof fn lemma_rot_fold_len(kfs: Seq<(u32, Vector3)>)
    requires
        spec_rot_fold(kfs) is Ok,
    ensures
        spec_rot_fold(kfs)->Ok_0.0.len() == 4 * kfs.len(),
    decreases kfs.len(),
{
    if kfs.len() > 0 {
        lemma_rot_fold_len(kfs.drop_last());
    }
}

/// The packed translation or scale track: per keyframe its three
/// components, in order.
pub open spec fn spec_vec_values(kfs: Seq<(u32, Vector3)>) -> Seq<u32>
    decreases kfs.len(),
{
    if kfs.len() == 0 {
        Seq::empty()
    } else {
        let v = kfs.last().1;
        spec_vec_values(kfs.drop_last()) + seq![v.x, v.y, v.z]
    }
}

/// A vector track holds three components per keyframe.
pub proof fn lemma_vec_values_len(kfs: Seq<(u32, Vector3)>)
    ensures
        spec_vec_values(kfs).len() == 3 * kfs.len(),
    decreases kfs.len(),
{
    if kfs.len() > 0 {
        lemma_vec_values_len(kfs.drop_last());
    }
}

/// The keyframe values of a channel, in order.
pub open spec fn spec_kf_values(kfs: Seq<(u32, Vector3)>) -> Seq<Vector3> {
    kfs.map_values(|kf: (u32, Vector3)| kf.1)
}

/// The assembler's running animation state: the packed track data and the
/// global tables it grows.
pub ghost struct AnimState {
    pub ad: Seq<u32>,
    pub views: Seq<gltf::BufferView>,
    pub accs: Seq<gltf::AccessorV>,
}

/// The guard on one channel instance: the packed data and the table ids
/// must stay within the document's 32-bit fields.
pub open spec fn spec_anim_guard(st: AnimState, smp: Seq<gltf::Sampler>, kfs: Seq<(u32, Vector3)>) -> bool {
    st.ad.len() + 5 * kfs.len() <= 0x3FFF_FFFF && st.views.len() < 0xFFFF_FFFF && st.accs.len()
        + 2 <= 0xFFFF_FFFF && smp.len() < 0xFFFF_FFFF
}

/// What serializing one channel for one resolved node does: the time track
/// then the value track appended to the packed data, one buffer view
/// spanning exactly both, a scalar time accessor bounded by zero and the
/// greatest time, a vector or quaternion value accessor bounded
/// componentwise, and one sampler/channel pair — or the failure: a channel
/// with no keyframes, a layout overflow, or a non-finite rotation keyframe.
pub open spec fn spec_instance(
    ch: crate::model::Channel,
    node_id: u32,
    st: AnimState,
    smp: Seq<gltf::Sampler>,
    chn: Seq<gltf::Channel>,
) -> Result<(AnimState, Seq<gltf::Sampler>, Seq<gltf::Channel>), GltfError> {
    let kfs = ch.keyframes@;
    if kfs.len() == 0 {
        Err(GltfError::EmptyChannel)
    } else if !spec_anim_guard(st, smp, kfs) {
        Err(GltfError::BufferTooLarge)
    } else {
        let times = spec_times(kfs);
        let max_time = spec_fmax_fold(F_ZERO, times);
        let byte_offset = (st.ad.len() * 4) as u32;
        let output_byte_offset = (kfs.len() * 4) as u32;
        let vals_r: Result<(Seq<u32>, Seq<u32>, Seq<u32>), GltfError> = if ch.target
            == crate::model::Target::Rotation {
            spec_rot_fold(kfs)
        } else {
            let mn = spec_min_fold(kfs[0].1, spec_kf_values(kfs));
            let mx = spec_max_fold(kfs[0].1, spec_kf_values(kfs));
            Ok((spec_vec_values(kfs), seq![mn.x, mn.y, mn.z], seq![mx.x, mx.y, mx.z]))
        };
        match vals_r {
            Err(e) => Err(e),
            Ok((vals, mn, mx)) => {
                let ad2 = st.ad + times + vals;
                let view = gltf::BufferView {
                    buffer: 1,
                    byte_offset,
                    byte_length: (ad2.len() * 4 - st.ad.len() * 4) as u32,
                    target: None,
                };
                let in_acc = gltf::AccessorV {
                    buffer_view: st.views.len() as u32,
                    byte_offset: 0,
                    component_type: COMPONENT_F32,
                    count: kfs.len() as u32,
                    accessor_type: gltf::AccessorType::Scalar,
                    max: seq![max_time],
                    min: seq![F_ZERO],
                };
                let out_acc = gltf::AccessorV {
                    buffer_view: st.views.len() as u32,
                    byte_offset: output_byte_offset,
                    component_type: COMPONENT_F32,
                    count: kfs.len() as u32,
                    accessor_type: if ch.target == crate::model::Target::Rotation {
                        gltf::AccessorType::Vec4
                    } else {
                        gltf::AccessorType::Vec3
                    },
                    max: mx,
                    min: mn,
                };
                let channel = gltf::Channel {
                    sampler: smp.len() as u32,
                    target: gltf::Target {
                        node: node_id,
                        path: match ch.target {
                            crate::model::Target::Translation => gltf::Path::Translation,
                            crate::model::Target::Rotation => gltf::Path::Rotation,
                            crate::model::Target::Scale => gltf::Path::Scale,
                        },
                    },
                };
                let sampler = gltf::Sampler {
                    input: st.accs.len() as u32,
                    output: (st.accs.len() + 1) as u32,
                    interpolation: gltf::Interpolation::Linear,
                };
                Ok(
                    (
                        AnimState {
                            ad: ad2,
                            views: st.views.push(view),
                            accs: st.accs.push(in_acc).push(out_acc),
                        },
                        smp.push(sampler),
                        chn.push(channel),
                    ),
                )
            },
        }
    }
}

/// One channel serialized for every node it names, in order — or the first
/// failure, an unknown node name included.
pub open spec fn spec_channel(
    ch: crate::model::Channel,
    node_tbl: Seq<(Seq<char>, u32)>,
    st: AnimState,
    smp: Seq<gltf::Sampler>,
    chn: Seq<gltf::Channel>,
    i: int,
) -> Result<(AnimState, Seq<gltf::Sampler>, Seq<gltf::Channel>), GltfError>
    decreases i,
{
    if i <= 0 {
        Ok((st, smp, chn))
    } else {
        match spec_channel(ch, node_tbl, st, smp, chn, i - 1) {
            Err(e) => Err(e),
            Ok((st1, smp1, chn1)) => match spec_lookup(node_tbl, ch.nodes@[i - 1]@) {
                None => Err(GltfError::UnknownNode { name: ch.nodes@[i - 1] }),
                Some(id) => spec_instance(ch, id, st1, smp1, chn1),
            },
        }
    }
}

/// A failure among the first `i` named nodes fails the whole channel.
pub proof fn lemma_channel_prefix_err(
    ch: crate::model::Channel,
    node_tbl: Seq<(Seq<char>, u32)>,
    st: AnimState,
    smp: Seq<gltf::Sampler>,
    chn: Seq<gltf::Channel>,
    i: int,
    j: int,
)
    requires
        0 <= i <= j <= ch.nodes@.len(),
        spec_channel(ch, node_tbl, st, smp, chn, i) is Err,
    ensures
        spec_channel(ch, node_tbl, st, smp, chn, j) == spec_channel(ch, node_tbl, st, smp, chn, i),
    decreases j - i,
{
    if i < j {
        lemma_channel_prefix_err(ch, node_tbl, st, smp, chn, i, j - 1);
    }
}

/// An animation's channels serialized in order — or the first failure.
pub open spec fn spec_channels(
    chs: Seq<crate::model::Channel>,
    node_tbl: Seq<(Seq<char>, u32)>,
    st: AnimState,
    smp: Seq<gltf::Sampler>,
    chn: Seq<gltf::Channel>,
) -> Result<(AnimState, Seq<gltf::Sampler>, Seq<gltf::Channel>), GltfError>
    decreases chs.len(),
{
    if chs.len() == 0 {
        Ok((st, smp, chn))
    } else {
        match spec_channels(chs.drop_last(), node_tbl, st, smp, chn) {
            Err(e) => Err(e),
            Ok((st1, smp1, chn1)) => spec_channel(
                chs.last(),
                node_tbl,
                st1,
                smp1,
                chn1,
                chs.last().nodes@.len() as int,
            ),
        }
    }
}

/// A failure among the first `i` channels fails the whole animation.
pub proof fn lemma_channels_prefix_err(
    chs: Seq<crate::model::Channel>,
    node_tbl: Seq<(Seq<char>, u32)>,
    st: AnimState,
    smp: Seq<gltf::Sampler>,
    chn: Seq<gltf::Channel>,
    i: int,
)
    requires
        0 <= i <= chs.len(),
        spec_channels(chs.take(i), node_tbl, st, smp, chn) is Err,
    ensures
        spec_channels(chs, node_tbl, st, smp, chn) == spec_channels(
            chs.take(i),
            node_tbl,
            st,
            smp,
            chn,
        ),
    decreases chs.len() - i,
{
    if i < chs.len() {
        assert(chs.take(i + 1).drop_last() =~= chs.take(i));
        lemma_channels_prefix_err(chs, node_tbl, st, smp, chn, i + 1);
    } else {
        assert(chs.take(i) =~= chs);
    }
}

/// The declared animations serialized in order — or the first failure.
pub open spec fn spec_animations(
    ans: Seq<crate::model::Animation>,
    node_tbl: Seq<(Seq<char>, u32)>,
    st: AnimState,
) -> Result<(AnimState, Seq<gltf::AnimationV>), GltfError>
    decreases ans.len(),
{
    if ans.len() == 0 {
        Ok((st, Seq::empty()))
    } else {
        match spec_animations(ans.drop_last(), node_tbl, st) {
            Err(e) => Err(e),
            Ok((st1, out)) => {
                let a = ans.last();
                match spec_channels(a.channels@, node_tbl, st1, Seq::empty(), Seq::empty()) {
                    Err(e) => Err(e),
                    Ok((st2, smp, chn)) => Ok(
                        (
                            st2,
                            out.push(gltf::AnimationV { name: a.name@, samplers: smp, channels: chn }),
                        ),
                    ),
                }
            },
        }
    }
}

/// A failure among the first `i` animations fails the whole table.
pub proof fn lemma_animations_prefix_err(
    ans: Seq<crate::model::Animation>,
    node_tbl: Seq<(Seq<char>, u32)>,
    st: AnimState,
    i: int,
)
    requires
        0 <= i <= ans.len(),
        spec_animations(ans.take(i), node_tbl, st) is Err,
    ensures
        spec_animations(ans, node_tbl, st) == spec_animations(ans.take(i), node_tbl, st),
    decreases ans.len() - i,
{
    if i < ans.len() {
        assert(ans.take(i + 1).drop_last() =~= ans.take(i));
        lemma_animations_prefix_err(ans, node_tbl, st, i + 1);
    } else {
        assert(ans.take(i) =~= ans);
    }
}


/// The animation state the running tables stand for.
pub open spec fn spec_astate(
    ad: Seq<u32>,
    views: Seq<gltf::BufferView>,
    accs: Seq<gltf::Accessor>,
) -> AnimState {
    AnimState { ad, views, accs: accs.map_values(|a: gltf::Accessor| a@) }
}

/// Serializes every declared animation: per channel and named node, the
/// time track and the value track are appended to the packed animation
/// data, with one buffer view, two accessors and one sampler/channel pair
/// per instance — or the first failure, with the running tables left
/// unspecified.
#[verifier::rlimit(100)]
pub fn assemble_animations(
    animations: &Vec<crate::model::Animation>,
    node_ids: &Vec<(String, u32)>,
    anim_data: &mut Vec<u32>,
    views: &mut Vec<gltf::BufferView>,
    accs: &mut Vec<gltf::Accessor>,
) -> (r: Result<Vec<gltf::Animation>, GltfError>)
    ensures
        match spec_animations(
            animations@,
            view_map(node_ids@),
            spec_astate(old(anim_data)@, old(views)@, old(accs)@),
        ) {
            Ok((st, outs)) => r matches Ok(v) && {
                &&& final(anim_data)@ == st.ad
                &&& final(views)@ == st.views
                &&& final(accs)@.map_values(|a: gltf::Accessor| a@) == st.accs
                &&& v@.map_values(|a: gltf::Animation| a@) == outs
            },
            Err(e) => r matches Err(e2) && e2 == e,
        },
{
    let ghost st0 = spec_astate(old(anim_data)@, old(views)@, old(accs)@);
    let ghost ntbl = view_map(node_ids@);
    let mut out: Vec<gltf::Animation> = Vec::new();
    let an = animations.len();
    for ai in 0..an
        invariant
            an == animations@.len(),
            st0 == spec_astate(old(anim_data)@, old(views)@, old(accs)@),
            ntbl == view_map(node_ids@),
            spec_animations(animations@.take(ai as int), ntbl, st0) matches Ok(t) && {
                &&& anim_data@ == t.0.ad
                &&& views@ == t.0.views
                &&& accs@.map_values(|a: gltf::Accessor| a@) == t.0.accs
                &&& out@.map_values(|a: gltf::Animation| a@) == t.1
            },
    {
        proof {
            assert(animations@.take(ai + 1).drop_last() =~= animations@.take(ai as int));
            assert(animations@.take(ai + 1).last() == animations@[ai as int]);
        }
        let a = &animations[ai];
        let ghost st_a = spec_animations(animations@.take(ai as int), ntbl, st0)->Ok_0.0;
        let ghost outs_pre = out@.map_values(|x: gltf::Animation| x@);

        let mut samplers: Vec<gltf::Sampler> = Vec::new();
        let mut channels: Vec<gltf::Channel> = Vec::new();
        let cn = a.channels.len();
        for ci in 0..cn
            invariant
                cn == a.channels@.len(),
                animations@[ai as int] == *a,
                0 <= ai < animations@.len(),
                animations@.take(ai + 1).drop_last() == animations@.take(ai as int),
                animations@.take(ai + 1).last() == animations@[ai as int],
                st0 == spec_astate(old(anim_data)@, old(views)@, old(accs)@),
                ntbl == view_map(node_ids@),
                spec_animations(animations@.take(ai as int), ntbl, st0) matches Ok(t) && t.0
                    == st_a,
                spec_channels(
                    a.channels@.take(ci as int),
                    ntbl,
                    st_a,
                    Seq::empty(),
                    Seq::empty(),
                ) matches Ok(t) && {
                    &&& anim_data@ == t.0.ad
                    &&& views@ == t.0.views
                    &&& accs@.map_values(|ac: gltf::Accessor| ac@) == t.0.accs
                    &&& samplers@ == t.1
                    &&& channels@ == t.2
                },
        {
            proof {
                assert(a.channels@.take(ci + 1).drop_last() =~= a.channels@.take(ci as int));
                assert(a.channels@.take(ci + 1).last() == a.channels@[ci as int]);
            }
            let ch = &a.channels[ci];
            let ghost chs_in = spec_channels(
                a.channels@.take(ci as int),
                ntbl,
                st_a,
                Seq::empty(),
                Seq::empty(),
            )->Ok_0;

            let nn = ch.nodes.len();
            for ni in 0..nn
                invariant
                    nn == ch.nodes@.len(),
                    a.channels@[ci as int] == *ch,
                    animations@[ai as int] == *a,
                    0 <= ai < animations@.len(),
                    0 <= ci < a.channels@.len(),
                    animations@.take(ai + 1).drop_last() == animations@.take(ai as int),
                    animations@.take(ai + 1).last() == animations@[ai as int],
                    a.channels@.take(ci + 1).drop_last() == a.channels@.take(ci as int),
                    a.channels@.take(ci + 1).last() == a.channels@[ci as int],
                    st0 == spec_astate(old(anim_data)@, old(views)@, old(accs)@),
                    ntbl == view_map(node_ids@),
                    spec_animations(animations@.take(ai as int), ntbl, st0) matches Ok(t) && t.0
                        == st_a,
                    spec_channels(
                        a.channels@.take(ci as int),
                        ntbl,
                        st_a,
                        Seq::empty(),
                        Seq::empty(),
                    ) matches Ok(t) && t == chs_in,
                    spec_channel(*ch, ntbl, chs_in.0, chs_in.1, chs_in.2, ni as int) matches Ok(
                        t,
                    ) && {
                        &&& anim_data@ == t.0.ad
                        &&& views@ == t.0.views
                        &&& accs@.map_values(|ac: gltf::Accessor| ac@) == t.0.accs
                        &&& samplers@ == t.1
                        &&& channels@ == t.2
                    },
            {
                let ghost st_i = spec_channel(
                    *ch,
                    ntbl,
                    chs_in.0,
                    chs_in.1,
                    chs_in.2,
                    ni as int,
                )->Ok_0;
                let node: u32 = match lookup(node_ids, &ch.nodes[ni]) {
                    None => {
                        proof {
                            lemma_channel_prefix_err(
                                *ch,
                                ntbl,
                                chs_in.0,
                                chs_in.1,
                                chs_in.2,
                                ni + 1,
                                ch.nodes@.len() as int,
                            );
                            lemma_channels_prefix_err(
                                a.channels@,
                                ntbl,
                                st_a,
                                Seq::empty(),
                                Seq::empty(),
                                ci + 1,
                            );
                            lemma_animations_prefix_err(animations@, ntbl, st0, ai + 1);
                        }
                        return Err(GltfError::UnknownNode { name: ch.nodes[ni].clone() });
                    },
                    Some(id) => id,
                };
                let kn = ch.keyframes.len();
                if kn == 0 {
                    proof {
                        lemma_channel_prefix_err(
                            *ch,
                            ntbl,
                            chs_in.0,
                            chs_in.1,
                            chs_in.2,
                            ni + 1,
                            ch.nodes@.len() as int,
                        );
                        lemma_channels_prefix_err(
                            a.channels@,
                            ntbl,
                            st_a,
                            Seq::empty(),
                            Seq::empty(),
                            ci + 1,
                        );
                        lemma_animations_prefix_err(animations@, ntbl, st0, ai + 1);
                    }
                    return Err(GltfError::EmptyChannel);
                }
                if kn > 0x3FFF_FFFF || anim_data.len() > 0x3FFF_FFFF || anim_data.len() as u64 + 5
                    * (kn as u64) > 0x3FFF_FFFF || views.len() >= 0xFFFF_FFFF || accs.len()
                    > 0xFFFF_FFFD || samplers.len() >= 0xFFFF_FFFF {
                    proof {
                        assert(!spec_anim_guard(st_i.0, st_i.1, ch.keyframes@));
                        lemma_channel_prefix_err(
                            *ch,
                            ntbl,
                            chs_in.0,
                            chs_in.1,
                            chs_in.2,
                            ni + 1,
                            ch.nodes@.len() as int,
                        );
                        lemma_channels_prefix_err(
                            a.channels@,
                            ntbl,
                            st_a,
                            Seq::empty(),
                            Seq::empty(),
                            ci + 1,
                        );
                        lemma_animations_prefix_err(animations@, ntbl, st0, ai + 1);
                    }
                    return Err(GltfError::BufferTooLarge);
                }
                proof {
                    assert(spec_anim_guard(st_i.0, st_i.1, ch.keyframes@));
                }

                let start_len = anim_data.len();
                let byte_offset = (start_len * 4) as u32;
                let ghost ad_start = anim_data@;
                let mut max_time: u32 = F_ZERO;
                proof {
                    assert(spec_times(ch.keyframes@).take(0) =~= Seq::<u32>::empty());
                }
                for j in 0..kn
                    invariant
                        kn == ch.keyframes@.len(),
                        a.channels@[ci as int] == *ch,
                        anim_data@ == ad_start + spec_times(ch.keyframes@).take(j as int),
                        max_time == spec_fmax_fold(
                            F_ZERO,
                            spec_times(ch.keyframes@).take(j as int),
                        ),
                {
                    let kf = ch.keyframes[j];
                    anim_data.push(kf.0);
                    max_time = f_max(max_time, kf.0);
                    proof {
                        let ts = spec_times(ch.keyframes@);
                        assert(ts.take(j + 1).drop_last() =~= ts.take(j as int));
                        assert(ts.take(j + 1).last() == ts[j as int]);
                        assert(anim_data@ =~= ad_start + ts.take(j + 1));
                    }
                }
                proof {
                    assert(spec_times(ch.keyframes@).take(kn as int) =~= spec_times(
                        ch.keyframes@,
                    ));
                }
                let output_byte_offset = (kn * 4) as u32;

                let is_quat = match ch.target {
                    crate::model::Target::Rotation => true,
                    _ => false,
                };
                let ghost ad_times = anim_data@;
                let acc_min: Vec<u32>;
                let acc_max: Vec<u32>;
                if is_quat {
                    let mut mnq: [u32; 4] = [F_ONE, F_ONE, F_ONE, F_ONE];
                    let mut mxq: [u32; 4] = [F_MINUS_ONE, F_MINUS_ONE, F_MINUS_ONE, F_MINUS_ONE];
                    proof {
                        let t0 = spec_rot_fold(ch.keyframes@.take(0));
                        assert(t0 matches Ok(t) && t.0 =~= Seq::<u32>::empty() && t.1 =~= mnq@
                            && t.2 =~= mxq@);
                    }
                    for j in 0..kn
                        invariant
                            kn == ch.keyframes@.len(),
                            a.channels@[ci as int] == *ch,
                            animations@[ai as int] == *a,
                            0 <= ai < animations@.len(),
                            0 <= ci < a.channels@.len(),
                            0 <= ni < ch.nodes@.len(),
                            animations@.take(ai + 1).drop_last() == animations@.take(ai as int),
                            animations@.take(ai + 1).last() == animations@[ai as int],
                            a.channels@.take(ci + 1).drop_last() == a.channels@.take(ci as int),
                            a.channels@.take(ci + 1).last() == a.channels@[ci as int],
                            st0 == spec_astate(old(anim_data)@, old(views)@, old(accs)@),
                            ntbl == view_map(node_ids@),
                            spec_animations(animations@.take(ai as int), ntbl, st0) matches Ok(t)
                                && t.0 == st_a,
                            spec_channels(
                                a.channels@.take(ci as int),
                                ntbl,
                                st_a,
                                Seq::empty(),
                                Seq::empty(),
                            ) matches Ok(t) && t == chs_in,
                            spec_channel(*ch, ntbl, chs_in.0, chs_in.1, chs_in.2, ni as int)
                                matches Ok(t) && t == st_i,
                            spec_lookup(ntbl, ch.nodes@[ni as int]@) == Some(node),
                            1 <= kn,
                            spec_anim_guard(st_i.0, st_i.1, ch.keyframes@),
                            ch.target is Rotation,
                            anim_data@ == ad_times + spec_rot_fold(
                                ch.keyframes@.take(j as int),
                            )->Ok_0.0,
                            spec_rot_fold(ch.keyframes@.take(j as int)) matches Ok(t) && mnq@
                                == t.1 && mxq@ == t.2,
                    {
                        proof {
                            assert(ch.keyframes@.take(j + 1).drop_last() =~= ch.keyframes@.take(
                                j as int,
                            ));
                            assert(ch.keyframes@.take(j + 1).last() == ch.keyframes@[j as int]);
                        }
                        let v = ch.keyframes[j].1;
                        if !(f_is_finite(v.x) && f_is_finite(v.y) && f_is_finite(v.z)) {
                            proof {
                                lemma_rot_fold_prefix_err(ch.keyframes@, j + 1);
                                lemma_channel_prefix_err(
                                    *ch,
                                    ntbl,
                                    chs_in.0,
                                    chs_in.1,
                                    chs_in.2,
                                    ni + 1,
                                    ch.nodes@.len() as int,
                                );
                                lemma_channels_prefix_err(
                                    a.channels@,
                                    ntbl,
                                    st_a,
                                    Seq::empty(),
                                    Seq::empty(),
                                    ci + 1,
                                );
                                lemma_animations_prefix_err(animations@, ntbl, st0, ai + 1);
                            }
                            return Err(GltfError::NonFiniteRotation);
                        }
                        let q = quat_of_euler_deg(v);
                        anim_data.push(q[0]);
                        anim_data.push(q[1]);
                        anim_data.push(q[2]);
                        anim_data.push(q[3]);
                        mnq = [
                            f_min(mnq[0], q[0]),
                            f_min(mnq[1], q[1]),
                            f_min(mnq[2], q[2]),
                            f_min(mnq[3], q[3]),
                        ];
                        mxq = [
                            f_max(mxq[0], q[0]),
                            f_max(mxq[1], q[1]),
                            f_max(mxq[2], q[2]),
                            f_max(mxq[3], q[3]),
                        ];
                        proof {
                            let t1 = spec_rot_fold(ch.keyframes@.take(j + 1));
                            assert(t1 is Ok);
                            assert(anim_data@ =~= ad_times + t1->Ok_0.0);
                            assert(mnq@ =~= t1->Ok_0.1);
                            assert(mxq@ =~= t1->Ok_0.2);
                        }
                    }
                    proof {
                        assert(ch.keyframes@.take(kn as int) =~= ch.keyframes@);
                    }
                    acc_min = vec![mnq[0], mnq[1], mnq[2], mnq[3]];
                    acc_max = vec![mxq[0], mxq[1], mxq[2], mxq[3]];
                } else {
                    let mut min_value = ch.keyframes[0].1;
                    let mut max_value = ch.keyframes[0].1;
                    proof {
                        assert(spec_vec_values(ch.keyframes@.take(0)) =~= Seq::<u32>::empty());
                        assert(spec_kf_values(ch.keyframes@).take(0) =~= Seq::<Vector3>::empty());
                    }
                    for j in 0..kn
                        invariant
                            kn == ch.keyframes@.len(),
                            a.channels@[ci as int] == *ch,
                            anim_data@ == ad_times + spec_vec_values(
                                ch.keyframes@.take(j as int),
                            ),
                            min_value == spec_min_fold(
                                ch.keyframes@[0].1,
                                spec_kf_values(ch.keyframes@).take(j as int),
                            ),
                            max_value == spec_max_fold(
                                ch.keyframes@[0].1,
                                spec_kf_values(ch.keyframes@).take(j as int),
                            ),
                    {
                        proof {
                            assert(ch.keyframes@.take(j + 1).drop_last() =~= ch.keyframes@.take(
                                j as int,
                            ));
                            assert(ch.keyframes@.take(j + 1).last() == ch.keyframes@[j as int]);
                            let vs = spec_kf_values(ch.keyframes@);
                            assert(vs.take(j + 1).drop_last() =~= vs.take(j as int));
                            assert(vs.take(j + 1).last() == vs[j as int]);
                        }
                        let v = ch.keyframes[j].1;
                        anim_data.push(v.x);
                        anim_data.push(v.y);
                        anim_data.push(v.z);
                        min_value = min_value.min(v);
                        max_value = max_value.max(v);
                        proof {
                            assert(anim_data@ =~= ad_times + spec_vec_values(
                                ch.keyframes@.take(j + 1),
                            ));
                        }
                    }
                    proof {
                        assert(ch.keyframes@.take(kn as int) =~= ch.keyframes@);
                        assert(spec_kf_values(ch.keyframes@).take(kn as int) =~= spec_kf_values(
                            ch.keyframes@,
                        ));
                    }
                    acc_min = vec![min_value.x, min_value.y, min_value.z];
                    acc_max = vec![max_value.x, max_value.y, max_value.z];
                }

                proof {
                    if ch.target is Rotation {
                        lemma_rot_fold_len(ch.keyframes@);
                    } else {
                        lemma_vec_values_len(ch.keyframes@);
                    }
                    assert(ad_start == st_i.0.ad);
                    assert(anim_data@.len() >= start_len);
                    assert(anim_data@.len() - start_len <= 5 * (kn as int));
                }
                let view_index = views.len() as u32;
                let byte_length = ((anim_data.len() - start_len) * 4) as u32;
                views.push(
                    gltf::BufferView { buffer: 1, byte_offset, byte_length, target: None },
                );
                let input_id = accs.len() as u32;
                let ghost accs_pre = accs@.map_values(|ac: gltf::Accessor| ac@);
                accs.push(
                    gltf::Accessor {
                        buffer_view: view_index,
                        byte_offset: 0,
                        component_type: COMPONENT_F32,
                        count: kn as u32,
                        accessor_type: gltf::AccessorType::Scalar,
                        max: vec![max_time],
                        min: vec![F_ZERO],
                    },
                );
                accs.push(
                    gltf::Accessor {
                        buffer_view: view_index,
                        byte_offset: output_byte_offset,
                        component_type: COMPONENT_F32,
                        count: kn as u32,
                        accessor_type: if is_quat {
                            gltf::AccessorType::Vec4
                        } else {
                            gltf::AccessorType::Vec3
                        },
                        max: acc_max,
                        min: acc_min,
                    },
                );
                channels.push(
                    gltf::Channel {
                        sampler: samplers.len() as u32,
                        target: gltf::Target {
                            node,
                            path: match ch.target {
                                crate::model::Target::Translation => gltf::Path::Translation,
                                crate::model::Target::Rotation => gltf::Path::Rotation,
                                crate::model::Target::Scale => gltf::Path::Scale,
                            },
                        },
                    },
                );
                samplers.push(
                    gltf::Sampler {
                        input: input_id,
                        output: input_id + 1,
                        interpolation: gltf::Interpolation::Linear,
                    },
                );
                proof {
                    let sti = spec_instance(*ch, node, st_i.0, st_i.1, st_i.2);
                    assert(sti is Ok);
                    assert(anim_data@ =~= sti->Ok_0.0.ad);
                    assert(accs@.len() >= 2);
                    assert(accs@.map_values(|ac: gltf::Accessor| ac@) =~= accs_pre.push(
                        accs@[accs@.len() - 2]@,
                    ).push(accs@[accs@.len() - 1]@));
                    assert(accs@[accs@.len() - 2]@.max =~= seq![max_time]);
                    assert(accs@[accs@.len() - 2]@.min =~= seq![F_ZERO]);
                    assert(accs@[accs@.len() - 2]@ == sti->Ok_0.0.accs[sti->Ok_0.0.accs.len()
                        - 2]);
                    assert(accs@[accs@.len() - 1]@.max =~= sti->Ok_0.0.accs.last().max);
                    assert(accs@[accs@.len() - 1]@.min =~= sti->Ok_0.0.accs.last().min);
                    assert(accs@[accs@.len() - 1]@ == sti->Ok_0.0.accs.last());
                    assert(accs@.map_values(|ac: gltf::Accessor| ac@) =~= sti->Ok_0.0.accs);
                    assert(views@ =~= sti->Ok_0.0.views);
                    assert(samplers@ =~= sti->Ok_0.1);
                    assert(channels@ =~= sti->Ok_0.2);
                }
            }
            proof {
                assert(ch.nodes@.take(nn as int) =~= ch.nodes@);
            }
        }
        proof {
            assert(a.channels@.take(cn as int) =~= a.channels@);
        }
        let ganim = gltf::Animation { name: a.name.clone(), samplers, channels };
        proof {
            assert(ganim@ == spec_animations(
                animations@.take(ai + 1),
                ntbl,
                st0,
            )->Ok_0.1.last());
        }
        out.push(ganim);
        proof {
            assert(out@.map_values(|x: gltf::Animation| x@) =~= outs_pre.push(ganim@));
        }
    }
    proof {
        assert(animations@.take(an as int) =~= animations@);
    }
    Ok(out)
}


/// A packed primitive keeps the vertex stream within the 32-bit byte
/// range: the guard inside `spec_primitive` enforces it.
pub proof fn lemma_primitive_verts_bound(
    p: crate::model::Primitive,
    st: MeshState,
    mat_tbl: Seq<(Seq<char>, u32)>,
)
    requires
        spec_primitive(p, st, mat_tbl) is Ok,
    ensures
        spec_primitive(p, st, mat_tbl)->Ok_0.0.verts.len() * 12 <= 0xFFFF_FFFF,
{
}

/// A packed primitive list keeps the vertex stream within the 32-bit byte
/// range.
pub proof fn lemma_prims_verts_bound(
    ps: Seq<crate::model::Primitive>,
    st: MeshState,
    mat_tbl: Seq<(Seq<char>, u32)>,
)
    requires
        spec_prims(ps, st, mat_tbl) is Ok,
        st.verts.len() * 12 <= 0xFFFF_FFFF,
    ensures
        spec_prims(ps, st, mat_tbl)->Ok_0.0.verts.len() * 12 <= 0xFFFF_FFFF,
    decreases ps.len(),
{
    if ps.len() > 0 {
        lemma_prims_verts_bound(ps.drop_last(), st, mat_tbl);
        lemma_primitive_verts_bound(
            ps.last(),
            spec_prims(ps.drop_last(), st, mat_tbl)->Ok_0.0,
            mat_tbl,
        );
    }
}

/// The packed mesh table keeps the vertex stream within the 32-bit byte
/// range.
pub proof fn lemma_meshes_verts_bound(
    ms: Seq<crate::model::Mesh>,
    st: MeshState,
    mat_tbl: Seq<(Seq<char>, u32)>,
)
    requires
        spec_meshes(ms, st, mat_tbl) is Ok,
        st.verts.len() * 12 <= 0xFFFF_FFFF,
    ensures
        spec_meshes(ms, st, mat_tbl)->Ok_0.0.verts.len() * 12 <= 0xFFFF_FFFF,
    decreases ms.len(),
{
    if ms.len() > 0 {
        lemma_meshes_verts_bound(ms.drop_last(), st, mat_tbl);
        lemma_prims_verts_bound(
            ms.last().primitives@,
            spec_meshes(ms.drop_last(), st, mat_tbl)->Ok_0.0,
            mat_tbl,
        );
    }
}

/// A serialized channel instance keeps the packed data within the 32-bit
/// byte range: the guard inside `spec_instance` enforces it.
pub proof fn lemma_instance_ad_bound(
    ch: crate::model::Channel,
    node_id: u32,
    st: AnimState,
    smp: Seq<gltf::Sampler>,
    chn: Seq<gltf::Channel>,
)
    requires
        spec_instance(ch, node_id, st, smp, chn) is Ok,
    ensures
        spec_instance(ch, node_id, st, smp, chn)->Ok_0.0.ad.len() <= 0x3FFF_FFFF,
{
    let kfs = ch.keyframes@;
    if kfs.len() > 0 && spec_anim_guard(st, smp, kfs) {
        if ch.target == crate::model::Target::Rotation {
            lemma_rot_fold_len(kfs);
        } else {
            lemma_vec_values_len(kfs);
        }
    }
}

/// A serialized channel keeps the packed data within range.
pub proof fn lemma_spec_channel_ad_bound(
    ch: crate::model::Channel,
    node_tbl: Seq<(Seq<char>, u32)>,
    st: AnimState,
    smp: Seq<gltf::Sampler>,
    chn: Seq<gltf::Channel>,
    i: int,
)
    requires
        spec_channel(ch, node_tbl, st, smp, chn, i) is Ok,
        st.ad.len() <= 0x3FFF_FFFF,
    ensures
        spec_channel(ch, node_tbl, st, smp, chn, i)->Ok_0.0.ad.len() <= 0x3FFF_FFFF,
    decreases i,
{
    if i > 0 {
        lemma_spec_channel_ad_bound(ch, node_tbl, st, smp, chn, i - 1);
        let t = spec_channel(ch, node_tbl, st, smp, chn, i - 1)->Ok_0;
        let id = spec_lookup(node_tbl, ch.nodes@[i - 1]@)->0;
        lemma_instance_ad_bound(ch, id, t.0, t.1, t.2);
    }
}

/// A serialized channel list keeps the packed data within range.
pub proof fn lemma_channels_ad_bound(
    chs: Seq<crate::model::Channel>,
    node_tbl: Seq<(Seq<char>, u32)>,
    st: AnimState,
    smp: Seq<gltf::Sampler>,
    chn: Seq<gltf::Channel>,
)
    requires
        spec_channels(chs, node_tbl, st, smp, chn) is Ok,
        st.ad.len() <= 0x3FFF_FFFF,
    ensures
        spec_channels(chs, node_tbl, st, smp, chn)->Ok_0.0.ad.len() <= 0x3FFF_FFFF,
    decreases chs.len(),
{
    if chs.len() > 0 {
        lemma_channels_ad_bound(chs.drop_last(), node_tbl, st, smp, chn);
        let t = spec_channels(chs.drop_last(), node_tbl, st, smp, chn)->Ok_0;
        lemma_spec_channel_ad_bound(
            chs.last(),
            node_tbl,
            t.0,
            t.1,
            t.2,
            chs.last().nodes@.len() as int,
        );
    }
}

/// The serialized animation table keeps the packed data within range.
pub proof fn lemma_animations_ad_bound(
    ans: Seq<crate::model::Animation>,
    node_tbl: Seq<(Seq<char>, u32)>,
    st: AnimState,
)
    requires
        spec_animations(ans, node_tbl, st) is Ok,
        st.ad.len() <= 0x3FFF_FFFF,
    ensures
        spec_animations(ans, node_tbl, st)->Ok_0.0.ad.len() <= 0x3FFF_FFFF,
    decreases ans.len(),
{
    if ans.len() > 0 {
        lemma_animations_ad_bound(ans.drop_last(), node_tbl, st);
        let t = spec_animations(ans.drop_last(), node_tbl, st)->Ok_0;
        lemma_channels_ad_bound(
            ans.last().channels@,
            node_tbl,
            t.0,
            Seq::empty(),
            Seq::empty(),
        );
    }
}

/// The root node ids of the scene: each declared root resolved against the
/// node table, in order — or the first missing root's error.
pub open spec fn spec_scene_roots(ns: Seq<crate::model::Node>, tbl: Seq<(Seq<char>, u32)>) -> Result<
    Seq<u32>,
    GltfError,
>
    decreases ns.len(),
{
    if ns.len() == 0 {
        Ok(Seq::empty())
    } else {
        match spec_scene_roots(ns.drop_last(), tbl) {
            Err(e) => Err(e),
            Ok(s) => match spec_lookup(tbl, ns.last().name@) {
                None => Err(GltfError::UnknownNode { name: ns.last().name }),
                Some(id) => Ok(s.push(id)),
            },
        }
    }
}

/// A missing root among the first `i` fails the whole scene.
pub proof fn lemma_scene_roots_prefix_err(
    ns: Seq<crate::model::Node>,
    tbl: Seq<(Seq<char>, u32)>,
    i: int,
)
    requires
        0 <= i <= ns.len(),
        spec_scene_roots(ns.take(i), tbl) is Err,
    ensures
        spec_scene_roots(ns, tbl) == spec_scene_roots(ns.take(i), tbl),
    decreases ns.len() - i,
{
    if i < ns.len() {
        assert(ns.take(i + 1).drop_last() =~= ns.take(i));
        lemma_scene_roots_prefix_err(ns, tbl, i + 1);
    } else {
        assert(ns.take(i) =~= ns);
    }
}

/// The whole document as the specs see it.
pub ghost struct DocV {
    pub materials: Seq<gltf::MaterialV>,
    pub meshes: Seq<Seq<gltf::Primitive>>,
    pub nodes: Seq<gltf::NodeV>,
    pub scene_roots: Seq<u32>,
    pub views: Seq<gltf::BufferView>,
    pub accs: Seq<gltf::AccessorV>,
    pub animations: Seq<gltf::AnimationV>,
    pub verts: Seq<Vector3>,
    pub ad: Seq<u32>,
}

/// What assembling a model yields: the material, mesh, node and animation
/// tables with the packed vertex and animation data, each phase feeding the
/// next — or the first failure, in phase order.
pub open spec fn spec_assemble(m: Model) -> Result<DocV, GltfError> {
    match spec_material_ids(m.materials@) {
        Err(e) => Err(e),
        Ok(mat_tbl) => match spec_meshes(
            m.meshes@,
            MeshState { verts: Seq::empty(), views: Seq::empty(), accs: Seq::empty() },
            mat_tbl,
        ) {
            Err(e) => Err(e),
            Ok((mst, prims, mesh_tbl)) => match spec_node_tables(
                spec_postorder_forest(m.nodes@),
                mesh_tbl,
            ) {
                Err(e) => Err(e),
                Ok((node_tbl, nodevs)) => match spec_animations(
                    m.animations@,
                    node_tbl,
                    AnimState { ad: Seq::empty(), views: mst.views, accs: mst.accs },
                ) {
                    Err(e) => Err(e),
                    Ok((ast, animvs)) => match spec_scene_roots(m.nodes@, node_tbl) {
                        Err(e) => Err(e),
                        Ok(roots) => Ok(
                            DocV {
                                materials: m.materials@.map_values(
                                    |mm: Material| spec_material_v(mm),
                                ),
                                meshes: prims,
                                nodes: nodevs,
                                scene_roots: roots,
                                views: ast.views,
                                accs: ast.accs,
                                animations: animvs,
                                verts: mst.verts,
                                ad: ast.ad,
                            },
                        ),
                    },
                },
            },
        },
    }
}

/// The assembled output: the document tables, the packed vertex stream of
/// buffer zero, and the packed animation data of buffer one.
pub struct Assembled {
    pub gltf: gltf::Gltf,
    pub vertex_data: Vec<Vector3>,
    pub animation_data: Vec<u32>,
}

/// Assembles a model into its interchange document: materials first, then
/// meshes with their packed geometry, then the flattened node forest, the
/// serialized animations, and the scene's root list. The primary buffer's
/// byte length is exactly twelve bytes per packed vertex; the animation
/// buffer exists exactly when animation data does, four bytes per value.
/// Any failure aborts the whole assembly with that failure.
pub fn assemble(model: &Model) -> (r: Result<Assembled, GltfError>)
    requires
        model.materials@.len() <= 0xFFFF_FFFF,
        model.meshes@.len() <= 0xFFFF_FFFF,
        spec_postorder_forest(model.nodes@).len() <= 0xFFFF_FFFF,
    ensures
        match spec_assemble(*model) {
            Ok(doc) => r matches Ok(av) && {
                &&& av.gltf.scene == 0
                &&& av.gltf.scenes@.map_values(|s: gltf::Scene| s@) == seq![doc.scene_roots]
                &&& av.gltf.nodes@.map_values(|n: gltf::Node| n@) == doc.nodes
                &&& av.gltf.meshes@.map_values(|m2: gltf::Mesh| m2@) == doc.meshes
                &&& av.gltf.buffer_views@ == doc.views
                &&& av.gltf.accessors@.map_values(|a: gltf::Accessor| a@) == doc.accs
                &&& av.gltf.materials@.map_values(|m2: gltf::Material| m2@) == doc.materials
                &&& av.gltf.animations@.map_values(|a: gltf::Animation| a@) == doc.animations
                &&& av.gltf.asset.version@ == "2.0"@
                &&& av.vertex_data@ == doc.verts
                &&& av.animation_data@ == doc.ad
                &&& av.gltf.buffers@.len() == (if doc.ad.len() > 0 { 2int } else { 1int })
                &&& av.gltf.buffers@[0].byte_length == (doc.verts.len() * 12) as u32
                &&& av.gltf.buffers@[0].uri@ == Seq::<char>::empty()
                &&& doc.ad.len() > 0 ==> av.gltf.buffers@[1].byte_length == (doc.ad.len()
                    * 4) as u32 && av.gltf.buffers@[1].uri@ == Seq::<char>::empty()
            },
            Err(e) => r matches Err(e2) && e2 == e,
        },
{
    let (materials, material_ids) = assemble_materials(&model.materials)?;

    let mut vertices: Vec<Vector3> = Vec::new();
    let mut buffer_views: Vec<gltf::BufferView> = Vec::new();
    let mut accessors: Vec<gltf::Accessor> = Vec::new();
    proof {
        let st0 = MeshState { verts: Seq::empty(), views: Seq::empty(), accs: Seq::empty() };
        assert(spec_state(vertices@, buffer_views@, accessors@).accs =~= st0.accs);
        assert(spec_state(vertices@, buffer_views@, accessors@).verts =~= st0.verts);
        assert(spec_state(vertices@, buffer_views@, accessors@).views =~= st0.views);
        assert(spec_state(vertices@, buffer_views@, accessors@) == st0);
    }
    let (meshes, mesh_ids) = assemble_meshes(
        &model.meshes,
        &material_ids,
        &mut vertices,
        &mut buffer_views,
        &mut accessors,
    )?;
    proof {
        let st0 = MeshState { verts: Seq::empty(), views: Seq::empty(), accs: Seq::empty() };
        lemma_meshes_verts_bound(model.meshes@, st0, spec_material_ids(model.materials@)->Ok_0);
    }

    let (nodes, node_ids) = build_nodes(&model.nodes, &mesh_ids)?;

    let mut animation_data: Vec<u32> = Vec::new();
    proof {
        let mst = spec_meshes(
            model.meshes@,
            MeshState { verts: Seq::empty(), views: Seq::empty(), accs: Seq::empty() },
            spec_material_ids(model.materials@)->Ok_0,
        )->Ok_0.0;
        let a0 = AnimState { ad: Seq::empty(), views: mst.views, accs: mst.accs };
        assert(spec_astate(animation_data@, buffer_views@, accessors@).ad =~= a0.ad);
        assert(spec_astate(animation_data@, buffer_views@, accessors@) == a0);
    }
    let animations = assemble_animations(
        &model.animations,
        &node_ids,
        &mut animation_data,
        &mut buffer_views,
        &mut accessors,
    )?;

    let mut scene_nodes: Vec<u32> = Vec::new();
    let rn = model.nodes.len();
    for i in 0..rn
        invariant
            rn == model.nodes@.len(),
            spec_scene_roots(model.nodes@.take(i as int), view_map(node_ids@)) matches Ok(s) && s
                == scene_nodes@,
            spec_material_ids(model.materials@) is Ok,
            spec_meshes(
                model.meshes@,
                MeshState { verts: Seq::empty(), views: Seq::empty(), accs: Seq::empty() },
                spec_material_ids(model.materials@)->Ok_0,
            ) is Ok,
            spec_node_tables(
                spec_postorder_forest(model.nodes@),
                spec_meshes(
                    model.meshes@,
                    MeshState { verts: Seq::empty(), views: Seq::empty(), accs: Seq::empty() },
                    spec_material_ids(model.materials@)->Ok_0,
                )->Ok_0.2,
            ) matches Ok(t) && t.0 == view_map(node_ids@),
            spec_animations(
                model.animations@,
                view_map(node_ids@),
                AnimState {
                    ad: Seq::empty(),
                    views: spec_meshes(
                        model.meshes@,
                        MeshState { verts: Seq::empty(), views: Seq::empty(), accs: Seq::empty() },
                        spec_material_ids(model.materials@)->Ok_0,
                    )->Ok_0.0.views,
                    accs: spec_meshes(
                        model.meshes@,
                        MeshState { verts: Seq::empty(), views: Seq::empty(), accs: Seq::empty() },
                        spec_material_ids(model.materials@)->Ok_0,
                    )->Ok_0.0.accs,
                },
            ) is Ok,
    {
        proof {
            assert(model.nodes@.take(i + 1).drop_last() =~= model.nodes@.take(i as int));
            assert(model.nodes@.take(i + 1).last() == model.nodes@[i as int]);
        }
        match lookup(&node_ids, &model.nodes[i].name) {
            None => {
                proof {
                    lemma_scene_roots_prefix_err(model.nodes@, view_map(node_ids@), i + 1);
                }
                return Err(GltfError::UnknownNode { name: model.nodes[i].name.clone() });
            },
            Some(id) => {
                scene_nodes.push(id);
            },
        }
    }
    proof {
        assert(model.nodes@.take(rn as int) =~= model.nodes@);
    }

    proof {
        let mst = spec_meshes(
            model.meshes@,
            MeshState { verts: Seq::empty(), views: Seq::empty(), accs: Seq::empty() },
            spec_material_ids(model.materials@)->Ok_0,
        )->Ok_0.0;
        let node_tbl = spec_node_tables(
            spec_postorder_forest(model.nodes@),
            spec_meshes(
                model.meshes@,
                MeshState { verts: Seq::empty(), views: Seq::empty(), accs: Seq::empty() },
                spec_material_ids(model.materials@)->Ok_0,
            )->Ok_0.2,
        )->Ok_0.0;
        lemma_animations_ad_bound(
            model.animations@,
            node_tbl,
            AnimState { ad: Seq::empty(), views: mst.views, accs: mst.accs },
        );
    }
    let mut buffers: Vec<gltf::Buffer> = Vec::new();
    let vertex_byte_length = (vertices.len() * 12) as u32;
    buffers.push(gltf::Buffer { uri: String::new(), byte_length: vertex_byte_length });
    if animation_data.len() > 0 {
        let anim_byte_length = (animation_data.len() * 4) as u32;
        buffers.push(gltf::Buffer { uri: String::new(), byte_length: anim_byte_length });
    }

    let mut scenes: Vec<gltf::Scene> = Vec::new();
    scenes.push(gltf::Scene { nodes: scene_nodes });
    proof {
        assert(scenes@.map_values(|sc: gltf::Scene| sc@) =~= seq![
            spec_scene_roots(model.nodes@, view_map(node_ids@))->Ok_0,
        ]);
    }

    let output = gltf::Gltf {
        scene: 0,
        scenes,
        nodes,
        meshes,
        buffers,
        buffer_views,
        accessors,
        materials,
        animations,
        asset: gltf::Asset { version: String::from_str("2.0") },
    };
    Ok(Assembled { gltf: output, vertex_data: vertices, animation_data })
}

} // verus!
