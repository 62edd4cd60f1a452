//! Scene intersection query.
//!
//! `find_closest_intersection` finds the nearest surface that a ray hits. The
//! ray comes as a function that tests one triangle; which triangles are
//! tested, in which order, and which of the hits wins is decided here. The two
//! halves of the query can be had alone: `pick_candidates` lists the triangles
//! that a ray has to be tested against, every complete index triple of every
//! visible geometry in scene order, and `closest_hit` names the nearest of the
//! hits that were reported for them.
//!
//! A distance key is any `u32` encoding of a distance in which a smaller key
//! means a nearer hit. For single precision numbers that are not negative the
//! bit pattern is such an encoding, as the module `distance` shows.

use vstd::prelude::*;

verus! {

/// What picking and drawing read of one mesh: its name and kind, how many
/// vertices it has, its index buffer (a triangle list) and whether it is shown.
pub struct USDGeometry {
    pub prim_path: String,
    pub prim_type: String,
    pub vertex_count: usize,
    pub indices: Vec<u32>,
    pub material_path: Option<String>,
    pub visibility: bool,
}

/// One triangle of the scene: the geometry it belongs to, its position in that
/// geometry's index buffer and the three vertex indices it connects.
#[derive(Clone, Copy, Debug, PartialEq, Eq, Structural)]
pub struct TriangleRef {
    pub geometry: usize,
    pub triangle: usize,
    pub v0: u32,
    pub v1: u32,
    pub v2: u32,
}

impl USDGeometry {
    /// Number of complete index triples. Indices left over at the end of the
    /// buffer form no triangle.
    pub open spec fn triangle_count(&self) -> nat {
        (self.indices@.len() / 3) as nat
    }

    /// Vertex index at corner `k` of triangle `t`.
    pub open spec fn corner(&self, t: int, k: int) -> u32 {
        self.indices@[3 * t + k]
    }

    /// Every corner of every complete triangle names an existing vertex.
    pub open spec fn indices_in_bounds(&self) -> bool {
        forall|t: int, k: int|
            0 <= t < self.triangle_count() && 0 <= k < 3 ==> #[trigger] self.corner(t, k)
                < self.vertex_count
    }

    /// The triangle at position `t` of geometry number `gi`.
    pub open spec fn triangle_ref(&self, gi: int, t: int) -> TriangleRef {
        TriangleRef {
            geometry: gi as usize,
            triangle: t as usize,
            v0: self.corner(t, 0),
            v1: self.corner(t, 1),
            v2: self.corner(t, 2),
        }
    }

    /// The triangles this geometry offers to a pick: all of them, in buffer
    /// order, when it is visible, none when it is hidden.
    pub open spec fn pickable(&self, gi: int) -> Seq<TriangleRef> {
        if self.visibility {
            Seq::new(self.triangle_count(), |t: int| self.triangle_ref(gi, t))
        } else {
            Seq::empty()
        }
    }

    /// Number of complete triangles in the index buffer.
    pub fn count_triangles(&self) -> (n: usize)
        ensures
            n == self.triangle_count(),
    {
        self.indices.len() / 3
    }

    /// Checks that the index buffer only names existing vertices.
    pub fn check_indices(&self) -> (ok: bool)
        ensures
            ok == self.indices_in_bounds(),
    {
        let n = self.indices.len() / 3;
        let mut t: usize = 0;
        while t < n
            invariant
                n == self.triangle_count(),
                3 * n <= self.indices.len(),
                t <= n,
                forall|u: int, k: int|
                    0 <= u < t && 0 <= k < 3 ==> #[trigger] self.corner(u, k) < self.vertex_count,
            decreases n - t,
        {
            let a = self.indices[3 * t];
            let b = self.indices[3 * t + 1];
            let c = self.indices[3 * t + 2];
            if a as usize >= self.vertex_count || b as usize >= self.vertex_count || c as usize
                >= self.vertex_count {
                assert(self.corner(t as int, 0) == a);
                assert(self.corner(t as int, 1) == b);
                assert(self.corner(t as int, 2) == c);
                return false;
            }
            assert forall|u: int, k: int| 0 <= u < t + 1 && 0 <= k < 3 implies #[trigger] self.corner(
                u,
                k,
            ) < self.vertex_count by {
                if u == t {
                    assert(self.corner(t as int, 0) == a);
                    assert(self.corner(t as int, 1) == b);
                    assert(self.corner(t as int, 2) == c);
                }
            }
            t += 1;
        }
        true
    }
}

/// The triangles a ray has to be tested against: the pickable triangles of
/// each geometry, geometry after geometry.
pub open spec fn candidates(scene: Seq<USDGeometry>) -> Seq<TriangleRef>
    decreases scene.len(),
{
    if scene.len() == 0 {
        Seq::empty()
    } else {
        candidates(scene.drop_last()) + scene.last().pickable(scene.len() - 1)
    }
}

/// Every visible geometry of the scene has its indices in bounds. Hidden
/// geometries are never read, so nothing is asked of them.
pub open spec fn scene_in_bounds(scene: Seq<USDGeometry>) -> bool {
    forall|gi: int|
        0 <= gi < scene.len() && (#[trigger] scene[gi]).visibility ==> scene[gi].indices_in_bounds()
}

/// `r` is a triangle of a visible geometry of the scene and its corners are
/// the vertex indices stored for it.
pub open spec fn names_triangle(scene: Seq<USDGeometry>, r: TriangleRef) -> bool {
    &&& r.geometry < scene.len()
    &&& scene[r.geometry as int].visibility
    &&& r.triangle < scene[r.geometry as int].triangle_count()
    &&& r == scene[r.geometry as int].triangle_ref(r.geometry as int, r.triangle as int)
}

/// Checks that no visible geometry names a vertex it does not have.
pub fn check_scene(geometries: &Vec<USDGeometry>) -> (ok: bool)
    ensures
        ok == scene_in_bounds(geometries@),
{
    let mut gi: usize = 0;
    while gi < geometries.len()
        invariant
            gi <= geometries.len(),
            forall|g: int|
                0 <= g < gi && (#[trigger] geometries@[g]).visibility
                    ==> geometries@[g].indices_in_bounds(),
        decreases geometries.len() - gi,
    {
        if geometries[gi].visibility && !geometries[gi].check_indices() {
            return false;
        }
        gi += 1;
    }
    true
}

/// Lists the triangles that a pick ray has to be tested against.
pub fn pick_candidates(geometries: &Vec<USDGeometry>) -> (out: Vec<TriangleRef>)
    ensures
        out@ == candidates(geometries@),
{
    let mut out: Vec<TriangleRef> = Vec::new();
    let mut gi: usize = 0;
    assert(geometries@.take(0) =~= Seq::<USDGeometry>::empty());
    while gi < geometries.len()
        invariant
            gi <= geometries.len(),
            out@ == candidates(geometries@.take(gi as int)),
        decreases geometries.len() - gi,
    {
        let g = &geometries[gi];
        let ghost before = out@;
        if g.visibility {
            let n = g.indices.len() / 3;
            let mut t: usize = 0;
            while t < n
                invariant
                    n == g.triangle_count(),
                    3 * n <= g.indices.len(),
                    t <= n,
                    g.visibility,
                    out@ == before + g.pickable(gi as int).take(t as int),
                decreases n - t,
            {
                let r = TriangleRef {
                    geometry: gi,
                    triangle: t,
                    v0: g.indices[3 * t],
                    v1: g.indices[3 * t + 1],
                    v2: g.indices[3 * t + 2],
                };
                out.push(r);
                assert(r == g.triangle_ref(gi as int, t as int));
                assert(g.pickable(gi as int).take(t + 1) =~= g.pickable(gi as int).take(
                    t as int,
                ).push(r));
                assert(out@ =~= before + g.pickable(gi as int).take(t + 1));
                t += 1;
            }
            assert(g.pickable(gi as int).take(n as int) =~= g.pickable(gi as int));
        } else {
            assert(out@ =~= before + g.pickable(gi as int));
        }
        proof {
            let next = geometries@.take(gi + 1);
            assert(next.drop_last() =~= geometries@.take(gi as int));
            assert(next.last() == g);
        }
        gi += 1;
    }
    assert(geometries@.take(gi as int) =~= geometries@);
    out
}

/// Every candidate names a triangle of a visible geometry; where the scene is
/// in bounds, its three corners are existing vertices of that geometry.
pub proof fn lemma_candidates_name_triangles(scene: Seq<USDGeometry>, i: int)
    requires
        scene.len() <= usize::MAX,
        0 <= i < candidates(scene).len(),
    ensures
        names_triangle(scene, candidates(scene)[i]),
        scene_in_bounds(scene) ==> ({
            let r = candidates(scene)[i];
            let g = scene[r.geometry as int];
            r.v0 < g.vertex_count && r.v1 < g.vertex_count && r.v2 < g.vertex_count
        }),
    decreases scene.len(),
{
    let head = scene.drop_last();
    let g = scene.last();
    let gi = scene.len() - 1;
    if i < candidates(head).len() {
        lemma_candidates_name_triangles(head, i);
        let r = candidates(head)[i];
        assert(head[r.geometry as int] == scene[r.geometry as int]);
        assert(scene_in_bounds(scene) ==> scene_in_bounds(head)) by {
            if scene_in_bounds(scene) {
                assert forall|k: int|
                    0 <= k < head.len() && (#[trigger] head[k]).visibility implies head[k].indices_in_bounds() by {
                    assert(head[k] == scene[k]);
                }
            }
        }
    } else {
        let t = i - candidates(head).len();
        assert(g.visibility);
        assert(g.triangle_count() <= g.indices.len());
        assert(candidates(scene)[i] == g.triangle_ref(gi, t));
        if scene_in_bounds(scene) {
            assert(scene[gi].indices_in_bounds());
            assert(g.corner(t, 0) < g.vertex_count);
            assert(g.corner(t, 1) < g.vertex_count);
            assert(g.corner(t, 2) < g.vertex_count);
        }
    }
}

/// A scene in which nothing is visible offers no triangle to a pick. The empty
/// scene is one such scene.
pub proof fn lemma_hidden_scene_has_no_candidates(scene: Seq<USDGeometry>)
    requires
        forall|gi: int| 0 <= gi < scene.len() ==> !(#[trigger] scene[gi]).visibility,
    ensures
        candidates(scene).len() == 0,
    decreases scene.len(),
{
    if scene.len() > 0 {
        let head = scene.drop_last();
        assert forall|gi: int| 0 <= gi < head.len() implies !(#[trigger] head[gi]).visibility by {
            assert(head[gi] == scene[gi]);
        }
        lemma_hidden_scene_has_no_candidates(head);
        assert(!scene[scene.len() - 1].visibility);
    }
}

/// A reported hit counts when its distance key lies strictly between `floor`
/// and `ceiling`. The floor keeps out what is too near to be meant, the
/// ceiling what is too far to be a hit at all.
pub open spec fn admissible(hit: Option<u32>, floor: u32, ceiling: u32) -> bool {
    hit matches Some(key) && floor < key < ceiling
}

/// Among the first `n` reports, number `i` is the nearest admissible hit, and
/// the earliest of those that are equally near.
pub open spec fn is_closest_among(
    hits: Seq<Option<u32>>,
    floor: u32,
    ceiling: u32,
    n: int,
    i: int,
) -> bool {
    &&& 0 <= i < n <= hits.len()
    &&& admissible(hits[i], floor, ceiling)
    &&& forall|j: int|
        0 <= j < n && admissible(#[trigger] hits[j], floor, ceiling) ==> {
            ||| hits[i].unwrap() < hits[j].unwrap()
            ||| hits[i].unwrap() == hits[j].unwrap() && i <= j
        }
}

/// Report number `i` is the nearest admissible hit of all.
pub open spec fn is_closest(hits: Seq<Option<u32>>, floor: u32, ceiling: u32, i: int) -> bool {
    is_closest_among(hits, floor, ceiling, hits.len() as int, i)
}

/// The position of the nearest admissible hit, if there is one.
pub open spec fn closest(hits: Seq<Option<u32>>, floor: u32, ceiling: u32) -> Option<int> {
    if exists|i: int| is_closest(hits, floor, ceiling, i) {
        Some(choose|i: int| is_closest(hits, floor, ceiling, i))
    } else {
        None
    }
}

/// At most one report is the nearest admissible hit.
pub proof fn lemma_closest_is_unique(
    hits: Seq<Option<u32>>,
    floor: u32,
    ceiling: u32,
    i: int,
    j: int,
)
    requires
        is_closest(hits, floor, ceiling, i),
        is_closest(hits, floor, ceiling, j),
    ensures
        i == j,
{
}

/// Finds the nearest admissible hit among the reports, one report per
/// candidate triangle. Of several hits at the same distance the first wins.
pub fn closest_hit(hits: &Vec<Option<u32>>, floor: u32, ceiling: u32) -> (r: Option<usize>)
    ensures
        match r {
            Some(i) => is_closest(hits@, floor, ceiling, i as int) && closest(
                hits@,
                floor,
                ceiling,
            ) == Some(i as int),
            None => closest(hits@, floor, ceiling) is None && forall|j: int|
                0 <= j < hits.len() ==> !admissible(#[trigger] hits@[j], floor, ceiling),
        },
{
    let mut best: Option<usize> = None;
    let mut best_key: u32 = ceiling;
    let mut i: usize = 0;
    while i < hits.len()
        invariant
            i <= hits.len(),
            match best {
                Some(b) => is_closest_among(hits@, floor, ceiling, i as int, b as int)
                    && hits@[b as int] == Some(best_key),
                None => best_key == ceiling && forall|j: int|
                    0 <= j < i ==> !admissible(#[trigger] hits@[j], floor, ceiling),
            },
        decreases hits.len() - i,
    {
        match hits[i] {
            Some(key) => {
                if key > floor && key < best_key {
                    best = Some(i);
                    best_key = key;
                }
            },
            None => {},
        }
        i += 1;
    }
    proof {
        match best {
            Some(b) => {
                assert(is_closest(hits@, floor, ceiling, b as int));
                let c = choose|c: int| is_closest(hits@, floor, ceiling, c);
                lemma_closest_is_unique(hits@, floor, ceiling, c, b as int);
            },
            None => {
                assert forall|c: int| !is_closest(hits@, floor, ceiling, c) by {
                    if 0 <= c < hits.len() {
                        assert(!admissible(hits@[c], floor, ceiling));
                    }
                }
            },
        }
    }
    best
}

/// Of two admissible hits at different distances the farther one is never
/// picked.
pub proof fn lemma_nearer_hit_wins(
    hits: Seq<Option<u32>>,
    floor: u32,
    ceiling: u32,
    near: int,
    far: int,
)
    requires
        0 <= near < hits.len(),
        0 <= far < hits.len(),
        admissible(hits[near], floor, ceiling),
        admissible(hits[far], floor, ceiling),
        hits[near].unwrap() < hits[far].unwrap(),
    ensures
        closest(hits, floor, ceiling) is Some,
        closest(hits, floor, ceiling) != Some(far),
        hits[closest(hits, floor, ceiling).unwrap()].unwrap() <= hits[near].unwrap(),
{
    lemma_some_hit_is_closest(hits, floor, ceiling, hits.len() as int);
    let w = choose|w: int| is_closest_among(hits, floor, ceiling, hits.len() as int, w);
    assert(is_closest(hits, floor, ceiling, w));
}

/// Where one of the first `n` reports is admissible, one of them is the
/// nearest.
pub proof fn lemma_some_hit_is_closest(hits: Seq<Option<u32>>, floor: u32, ceiling: u32, n: int)
    requires
        0 <= n <= hits.len(),
        exists|j: int| 0 <= j < n && admissible(#[trigger] hits[j], floor, ceiling),
    ensures
        exists|i: int| is_closest_among(hits, floor, ceiling, n, i),
    decreases n,
{
    let last = n - 1;
    if exists|j: int| 0 <= j < last && admissible(#[trigger] hits[j], floor, ceiling) {
        lemma_some_hit_is_closest(hits, floor, ceiling, last);
        let b = choose|b: int| is_closest_among(hits, floor, ceiling, last, b);
        if admissible(hits[last], floor, ceiling) && hits[last].unwrap() < hits[b].unwrap() {
            assert(is_closest_among(hits, floor, ceiling, n, last));
        } else {
            assert(is_closest_among(hits, floor, ceiling, n, b));
        }
    } else {
        assert(admissible(hits[last], floor, ceiling));
        assert(is_closest_among(hits, floor, ceiling, n, last));
    }
}

/// A scene in which nothing is visible is never hit, whatever the ray and
/// whatever the range of distances. This covers the empty scene.
pub proof fn lemma_hidden_scene_is_never_hit(
    scene: Seq<USDGeometry>,
    hits: Seq<Option<u32>>,
    floor: u32,
    ceiling: u32,
)
    requires
        forall|gi: int| 0 <= gi < scene.len() ==> !(#[trigger] scene[gi]).visibility,
        hits.len() == candidates(scene).len(),
    ensures
        closest(hits, floor, ceiling) is None,
{
    lemma_hidden_scene_has_no_candidates(scene);
}

/// The nearest hit of a pick: the triangle that was hit and the distance key
/// that was reported for it.
#[derive(Clone, Copy, Debug, PartialEq, Eq, Structural)]
pub struct Intersection {
    pub triangle: TriangleRef,
    pub distance_key: u32,
}

/// The corners of `r` are vertices of the geometry it belongs to.
pub open spec fn corners_in_bounds(scene: Seq<USDGeometry>, r: TriangleRef) -> bool {
    let count = scene[r.geometry as int].vertex_count;
    r.v0 < count && r.v1 < count && r.v2 < count
}

/// `hits` are reports of `test`, one for each candidate of the scene in
/// order.
pub open spec fn reported<F: Fn(TriangleRef) -> Option<u32>>(
    scene: Seq<USDGeometry>,
    test: F,
    hits: Seq<Option<u32>>,
) -> bool {
    &&& hits.len() == candidates(scene).len()
    &&& forall|i: int|
        0 <= i < hits.len() ==> call_ensures(test, (candidates(scene)[i],), #[trigger] hits[i])
}

/// `r` is what the reports `hits` come to: the candidate with the nearest
/// admissible hit and its distance key, or nothing where no hit is
/// admissible.
pub open spec fn picked(
    scene: Seq<USDGeometry>,
    hits: Seq<Option<u32>>,
    floor: u32,
    ceiling: u32,
    r: Option<Intersection>,
) -> bool {
    match r {
        Some(x) => closest(hits, floor, ceiling) matches Some(i) && is_closest(
            hits,
            floor,
            ceiling,
            i,
        ) && x.triangle == candidates(scene)[i] && hits[i] == Some(x.distance_key),
        None => closest(hits, floor, ceiling) is None,
    }
}

/// Finds the nearest surface that a ray hits. `test` is the ray: asked about
/// a triangle, it says whether it hits it and, if so, at which distance. It is
/// asked once about every complete triangle of every visible geometry, in
/// scene order, and about nothing else. The answer is the triangle with the
/// smallest distance key strictly between `floor` and `ceiling`, the first of
/// them where several are equally near, and nothing where there is none.
pub fn find_closest_intersection<F: Fn(TriangleRef) -> Option<u32>>(
    geometries: &Vec<USDGeometry>,
    floor: u32,
    ceiling: u32,
    test: F,
) -> (r: Option<Intersection>)
    requires
        scene_in_bounds(geometries@),
        forall|t: TriangleRef|
            names_triangle(geometries@, t) && corners_in_bounds(geometries@, t) ==> call_requires(
                test,
                (t,),
            ),
    ensures
        exists|hits: Seq<Option<u32>>|
            #[trigger] reported(geometries@, test, hits) && picked(
                geometries@,
                hits,
                floor,
                ceiling,
                r,
            ),
        (forall|gi: int| 0 <= gi < geometries@.len() ==> !(#[trigger] geometries@[gi]).visibility)
            ==> r is None,
{
    let found = pick_candidates(geometries);
    let mut hits: Vec<Option<u32>> = Vec::new();
    let mut i: usize = 0;
    while i < found.len()
        invariant
            i <= found.len(),
            found@ == candidates(geometries@),
            scene_in_bounds(geometries@),
            forall|t: TriangleRef|
                names_triangle(geometries@, t) && corners_in_bounds(geometries@, t)
                    ==> call_requires(test, (t,)),
            hits@.len() == i,
            forall|k: int| 0 <= k < i ==> call_ensures(test, (found@[k],), #[trigger] hits@[k]),
        decreases found.len() - i,
    {
        proof {
            assert(geometries@.len() == geometries.len());
            lemma_candidates_name_triangles(geometries@, i as int);
        }
        let hit = test(found[i]);
        hits.push(hit);
        i += 1;
    }
    assert(reported(geometries@, test, hits@));
    proof {
        if forall|gi: int| 0 <= gi < geometries@.len() ==> !(#[trigger] geometries@[gi]).visibility {
            lemma_hidden_scene_has_no_candidates(geometries@);
        }
    }
    match closest_hit(&hits, floor, ceiling) {
        Some(i) => {
            match hits[i] {
                Some(key) => {
                    let x = Intersection { triangle: found[i], distance_key: key };
                    assert(picked(geometries@, hits@, floor, ceiling, Some(x)));
                    Some(x)
                },
                None => None,
            }
        },
        None => {
            assert(picked(geometries@, hits@, floor, ceiling, None));
            None
        },
    }
}

} // verus!
