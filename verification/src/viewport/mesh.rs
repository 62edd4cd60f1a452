//! Index buffers of the built-in meshes.
//!
//! The placeholder cube, plane and sphere are triangle lists over a fixed
//! vertex layout. The vertex positions are the caller's business; the index
//! buffers are produced here, together with the proof that they only name
//! vertices that the layout has.

use vstd::prelude::*;
use vstd::arithmetic::div_mod::lemma_fundamental_div_mod_converse;
use crate::viewport::picking::USDGeometry;

verus! {

/// Material that the built-in meshes are bound to.
pub const DEFAULT_MATERIAL_PATH: &'static str = "/World/DefaultMaterial";

/// Rings of the built-in sphere, from pole to pole.
pub const SPHERE_RINGS: u32 = 16;

/// Segments of the built-in sphere, around the axis.
pub const SPHERE_SEGMENTS: u32 = 32;

/// Offset of corner `k` of the two triangles that cover a quad whose four
/// vertices are stored one after the other: the triangles are (0, 1, 2) and
/// (0, 2, 3).
pub open spec fn quad_corner(k: int) -> int {
    if k == 0 {
        0
    } else if k == 1 {
        1
    } else if k == 2 {
        2
    } else if k == 3 {
        0
    } else if k == 4 {
        2
    } else {
        3
    }
}

/// Index list of `quads` quads, each with four vertices of its own.
pub open spec fn quad_list(quads: nat) -> Seq<u32> {
    Seq::new(6 * quads, |i: int| (4 * (i / 6) + quad_corner(i % 6)) as u32)
}

/// Builds the index list of `quads` separate quads: six indices per quad,
/// over vertices `4 * q .. 4 * q + 3`.
pub fn quad_list_indices(quads: u32) -> (out: Vec<u32>)
    requires
        4 * quads <= u32::MAX,
    ensures
        out@ == quad_list(quads as nat),
        forall|i: int| 0 <= i < out@.len() ==> #[trigger] out@[i] < 4 * quads,
{
    let mut out: Vec<u32> = Vec::new();
    let mut q: u32 = 0;
    while q < quads
        invariant
            q <= quads,
            4 * quads <= u32::MAX,
            out@.len() == 6 * q,
            forall|i: int| 0 <= i < out@.len() ==> #[trigger] out@[i] == quad_list(quads as nat)[i],
            forall|i: int| 0 <= i < out@.len() ==> #[trigger] out@[i] < 4 * quads,
        decreases quads - q,
    {
        let base: u32 = 4 * q;
        let ghost start = out@.len() as int;
        out.push(base);
        out.push(base + 1);
        out.push(base + 2);
        out.push(base);
        out.push(base + 2);
        out.push(base + 3);
        assert forall|i: int| 0 <= i < out@.len() implies #[trigger] out@[i] == quad_list(
            quads as nat,
        )[i] by {
            if i >= start {
                let k = i - start;
                assert(i == 6 * q + k);
                assert(i / 6 == q as int && i % 6 == k) by (nonlinear_arith)
                    requires
                        i == 6 * q + k,
                        0 <= k < 6,
                ;
            }
        }
        q += 1;
    }
    assert(out@ =~= quad_list(quads as nat));
    out
}

/// Corner `k` of the two triangles that cover the patch of a latitude and
/// longitude grid between ring `ring` and the next, segment `seg` and the
/// next. A ring holds `segments + 1` vertices.
pub open spec fn grid_corner(segments: int, ring: int, seg: int, k: int) -> int {
    let current = ring * (segments + 1) + seg;
    let next = current + segments + 1;
    if k == 0 {
        current
    } else if k == 1 {
        next
    } else if k == 2 {
        current + 1
    } else if k == 3 {
        current + 1
    } else if k == 4 {
        next
    } else {
        next + 1
    }
}

/// Index list of a grid of `rings` by `segments` patches, ring after ring.
pub open spec fn grid_list(rings: nat, segments: nat) -> Seq<u32> {
    Seq::new(
        6 * rings * segments,
        |i: int|
            grid_corner(
                segments as int,
                (i / 6) / (segments as int),
                (i / 6) % (segments as int),
                i % 6,
            ) as u32,
    )
}

/// Number of vertices of a grid of `rings` by `segments` patches.
pub open spec fn grid_vertex_count(rings: nat, segments: nat) -> nat {
    (rings + 1) * (segments + 1)
}

/// Every corner of every patch is a vertex of the grid.
pub proof fn lemma_grid_corner_in_bounds(rings: int, segments: int, ring: int, seg: int, k: int)
    requires
        0 <= ring < rings,
        0 <= seg < segments,
        0 <= k < 6,
    ensures
        0 <= grid_corner(segments, ring, seg, k) < (rings + 1) * (segments + 1),
{
    assert(0 <= ring * (segments + 1) <= (rings - 1) * (segments + 1)) by (nonlinear_arith)
        requires
            0 <= ring < rings,
            0 <= segments,
    ;
    assert((rings + 1) * (segments + 1) == (rings - 1) * (segments + 1) + 2 * segments + 2)
        by (nonlinear_arith);
}

/// Builds the index list of a latitude and longitude grid: for each patch the
/// triangles (current, next, current + 1) and (current + 1, next, next + 1),
/// where `next` is the vertex one ring further.
pub fn grid_indices(rings: u32, segments: u32) -> (out: Vec<u32>)
    requires
        (rings + 1) * (segments + 1) <= u32::MAX,
    ensures
        out@ == grid_list(rings as nat, segments as nat),
        forall|i: int|
            0 <= i < out@.len() ==> #[trigger] out@[i] < grid_vertex_count(
                rings as nat,
                segments as nat,
            ),
{
    let mut out: Vec<u32> = Vec::new();
    let ghost total = grid_vertex_count(rings as nat, segments as nat) as int;
    let ghost want = grid_list(rings as nat, segments as nat);
    let mut ring: u32 = 0;
    assert(6 * 0 * segments == 0);
    while ring < rings
        invariant
            ring <= rings,
            total == (rings + 1) * (segments + 1),
            total <= u32::MAX,
            want == grid_list(rings as nat, segments as nat),
            out@.len() == 6 * (ring * segments),
            forall|i: int| 0 <= i < out@.len() ==> #[trigger] out@[i] == want[i],
            forall|i: int| 0 <= i < out@.len() ==> #[trigger] out@[i] < total,
        decreases rings - ring,
    {
        let mut seg: u32 = 0;
        while seg < segments
            invariant
                ring < rings,
                seg <= segments,
                total == (rings + 1) * (segments + 1),
                total <= u32::MAX,
                want == grid_list(rings as nat, segments as nat),
                out@.len() == 6 * (ring * segments + seg),
                forall|i: int| 0 <= i < out@.len() ==> #[trigger] out@[i] == want[i],
                forall|i: int| 0 <= i < out@.len() ==> #[trigger] out@[i] < total,
            decreases segments - seg,
        {
            proof {
                lemma_grid_corner_in_bounds(
                    rings as int,
                    segments as int,
                    ring as int,
                    seg as int,
                    0,
                );
                lemma_grid_corner_in_bounds(
                    rings as int,
                    segments as int,
                    ring as int,
                    seg as int,
                    5,
                );
            }
            let current: u32 = ring * (segments + 1) + seg;
            let next: u32 = current + segments + 1;
            let ghost start = out@.len() as int;
            let ghost quad = ring * segments + seg;
            out.push(current);
            out.push(next);
            out.push(current + 1);
            out.push(current + 1);
            out.push(next);
            out.push(next + 1);
            proof {
                assert(quad < rings * segments) by (nonlinear_arith)
                    requires
                        quad == ring * segments + seg,
                        0 <= ring < rings,
                        0 <= seg < segments,
                ;
                assert(6 * rings * segments == 6 * (rings * segments)) by (nonlinear_arith);
                lemma_fundamental_div_mod_converse(
                    quad,
                    segments as int,
                    ring as int,
                    seg as int,
                );
            }
            assert forall|i: int| 0 <= i < out@.len() implies #[trigger] out@[i] == want[i]
                && out@[i] < total by {
                if i >= start {
                    let k = i - start;
                    assert(i / 6 == quad && i % 6 == k) by (nonlinear_arith)
                        requires
                            i == 6 * quad + k,
                            0 <= k < 6,
                    ;
                    assert(want[i] == grid_corner(segments as int, ring as int, seg as int, k) as u32);
                }
            }
            seg += 1;
        }
        assert(ring * segments + segments == (ring + 1) * segments) by (nonlinear_arith);
        ring += 1;
    }
    assert(6 * (rings * segments) == 6 * rings * segments) by (nonlinear_arith);
    assert(out@ =~= want);
    out
}

/// A built-in mesh: named `prim_path`, of kind `prim_type`, visible, bound to
/// the default material, and with every index in bounds.
pub open spec fn is_builtin_mesh(
    g: USDGeometry,
    prim_path: Seq<char>,
    prim_type: Seq<char>,
    vertex_count: nat,
    indices: Seq<u32>,
) -> bool {
    &&& g.prim_path@ == prim_path
    &&& g.prim_type@ == prim_type
    &&& g.vertex_count == vertex_count
    &&& g.indices@ == indices
    &&& g.material_path matches Some(m) && m@ == DEFAULT_MATERIAL_PATH@
    &&& g.visibility
    &&& g.indices_in_bounds()
}

fn builtin_mesh(prim_path: &str, prim_type: &str, vertex_count: usize, indices: Vec<u32>) -> (g:
    USDGeometry)
    requires
        forall|i: int| 0 <= i < indices@.len() ==> #[trigger] indices@[i] < vertex_count,
    ensures
        is_builtin_mesh(g, prim_path@, prim_type@, vertex_count as nat, indices@),
{
    let g = USDGeometry {
        prim_path: prim_path.to_owned(),
        prim_type: prim_type.to_owned(),
        vertex_count,
        indices,
        material_path: Some(DEFAULT_MATERIAL_PATH.to_owned()),
        visibility: true,
    };
    assert forall|t: int, k: int|
        0 <= t < g.triangle_count() && 0 <= k < 3 implies #[trigger] g.corner(t, k)
        < g.vertex_count by {
        assert(0 <= 3 * t + k < g.indices@.len());
    }
    g
}

/// The placeholder cube: six faces of four vertices each.
pub fn create_cube_geometry(prim_path: &str) -> (g: USDGeometry)
    ensures
        is_builtin_mesh(g, prim_path@, "Cube"@, 24, quad_list(6)),
{
    builtin_mesh(prim_path, "Cube", 24, quad_list_indices(6))
}

/// The ground plane: one quad.
pub fn create_plane_geometry(prim_path: &str) -> (g: USDGeometry)
    ensures
        is_builtin_mesh(g, prim_path@, "Plane"@, 4, quad_list(1)),
{
    builtin_mesh(prim_path, "Plane", 4, quad_list_indices(1))
}

/// The placeholder sphere: a grid of 16 rings by 32 segments, 17 by 33
/// vertices.
pub fn create_sphere_geometry(prim_path: &str) -> (g: USDGeometry)
    ensures
        is_builtin_mesh(
            g,
            prim_path@,
            "Sphere"@,
            561,
            grid_list(SPHERE_RINGS as nat, SPHERE_SEGMENTS as nat),
        ),
{
    assert((SPHERE_RINGS + 1) * (SPHERE_SEGMENTS + 1) == 561) by (nonlinear_arith)
        requires
            SPHERE_RINGS == 16,
            SPHERE_SEGMENTS == 32,
    ;
    builtin_mesh(prim_path, "Sphere", 561, grid_indices(SPHERE_RINGS, SPHERE_SEGMENTS))
}

/// Index list of a cube whose faces share their eight corners: front, back,
/// top, bottom, right and left, two triangles each.
pub open spec fn shared_cube_list() -> Seq<u32> {
    seq![
        0, 1, 2, 2, 3, 0,
        4, 5, 6, 6, 7, 4,
        3, 2, 6, 6, 5, 3,
        0, 4, 7, 7, 1, 0,
        1, 7, 6, 6, 2, 1,
        4, 0, 3, 3, 5, 4,
    ]
}

/// Builds the index list of the cube with eight shared corners.
pub fn shared_cube_indices() -> (out: Vec<u32>)
    ensures
        out@ == shared_cube_list(),
        forall|i: int| 0 <= i < out@.len() ==> #[trigger] out@[i] < 8,
{
    let out: Vec<u32> = vec![
        0, 1, 2, 2, 3, 0,
        4, 5, 6, 6, 7, 4,
        3, 2, 6, 6, 5, 3,
        0, 4, 7, 7, 1, 0,
        1, 7, 6, 6, 2, 1,
        4, 0, 3, 3, 5, 4,
    ];
    assert(out@ =~= shared_cube_list());
    out
}

} // verus!
