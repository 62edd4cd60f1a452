use glam::Vec3;
use nodle_usd::viewport::distance::{
    writes_finite_distance, DEFAULT_PICK_CEILING, DEFAULT_PICK_FLOOR, INFINITE_DISTANCE,
};
use nodle_usd::viewport::picking::{
    check_scene, closest_hit, find_closest_intersection, pick_candidates, Intersection,
    TriangleRef, USDGeometry,
};

fn mesh(visibility: bool, vertex_count: usize, indices: Vec<u32>) -> USDGeometry {
    USDGeometry {
        prim_path: String::from("/World/Mesh"),
        prim_type: String::from("Mesh"),
        vertex_count,
        indices,
        material_path: None,
        visibility,
    }
}

fn near() -> u32 {
    DEFAULT_PICK_FLOOR
}

fn far() -> u32 {
    DEFAULT_PICK_CEILING
}

#[test]
fn default_range_is_from_a_tenth_to_infinity() {
    assert_eq!(DEFAULT_PICK_FLOOR, 0.1f32.to_bits());
    assert_eq!(DEFAULT_PICK_CEILING, f32::INFINITY.to_bits());
    assert_eq!(INFINITE_DISTANCE, f32::INFINITY.to_bits());
    assert_eq!(f32::from_bits(DEFAULT_PICK_FLOOR), 13421773.0 / 134217728.0);
}

#[test]
fn finite_distances_are_below_infinity() {
    for x in [0.0f32, f32::MIN_POSITIVE, 1.0e-45, 0.1, 1.0, 1.0e30, f32::MAX] {
        assert!(writes_finite_distance(x.to_bits()), "{}", x);
    }
    assert!(!writes_finite_distance(f32::INFINITY.to_bits()));
    assert!(!writes_finite_distance(f32::NAN.to_bits()));
    assert!(!writes_finite_distance((-1.0f32).to_bits()));
    assert!(!writes_finite_distance((-0.0f32).to_bits()));
}

#[test]
fn keys_order_as_distances_across_exponents() {
    let mut distances = vec![0.0f32, 1.0e-45, 3.0e-45, f32::MIN_POSITIVE / 2.0, f32::MIN_POSITIVE];
    let mut x = f32::MIN_POSITIVE;
    while x < f32::MAX / 3.0 {
        x = x * 2.5 + f32::MIN_POSITIVE;
        distances.push(x);
    }
    distances.push(f32::MAX);
    for pair in distances.windows(2) {
        assert!(pair[0] < pair[1]);
        assert!(pair[0].to_bits() < pair[1].to_bits());
    }
}

/// Moeller-Trumbore in single precision, as a viewport would run it.
fn ray_triangle(origin: Vec3, direction: Vec3, v0: Vec3, v1: Vec3, v2: Vec3) -> Option<f32> {
    let edge1 = v1 - v0;
    let edge2 = v2 - v0;
    let h = direction.cross(edge2);
    let a = edge1.dot(h);
    if a > -0.00001 && a < 0.00001 {
        return None;
    }
    let f = 1.0 / a;
    let s = origin - v0;
    let u = f * s.dot(h);
    if u < 0.0 || u > 1.0 {
        return None;
    }
    let q = s.cross(edge1);
    let v = f * direction.dot(q);
    if v < 0.0 || u + v > 1.0 {
        return None;
    }
    let t = f * edge2.dot(q);
    if t > 0.00001 {
        Some(t)
    } else {
        None
    }
}

fn cast(
    scene: &Vec<USDGeometry>,
    positions: &Vec<Vec<Vec3>>,
    origin: Vec3,
    direction: Vec3,
) -> Option<Intersection> {
    find_closest_intersection(scene, near(), far(), |t: TriangleRef| {
        let p = &positions[t.geometry];
        ray_triangle(origin, direction, p[t.v0 as usize], p[t.v1 as usize], p[t.v2 as usize])
            .map(|d| d.to_bits())
    })
}

fn unit_triangle_at(z: f32) -> Vec<Vec3> {
    vec![Vec3::new(0.0, 0.0, z), Vec3::new(1.0, 0.0, z), Vec3::new(0.0, 1.0, z)]
}

#[test]
fn candidates_skip_hidden_geometry_and_trailing_indices() {
    let scene = vec![
        mesh(true, 4, vec![0, 1, 2, 0, 2, 3, 1]),
        mesh(false, 3, vec![0, 1, 2]),
        mesh(true, 3, vec![2, 1, 0]),
    ];
    let got = pick_candidates(&scene);
    assert_eq!(
        got,
        vec![
            TriangleRef { geometry: 0, triangle: 0, v0: 0, v1: 1, v2: 2 },
            TriangleRef { geometry: 0, triangle: 1, v0: 0, v1: 2, v2: 3 },
            TriangleRef { geometry: 2, triangle: 0, v0: 2, v1: 1, v2: 0 },
        ]
    );
}

#[test]
fn candidates_of_an_empty_scene_are_none() {
    assert_eq!(pick_candidates(&Vec::new()), Vec::new());
}

#[test]
fn triangle_count_ignores_leftover_indices() {
    assert_eq!(mesh(true, 9, vec![]).count_triangles(), 0);
    assert_eq!(mesh(true, 9, vec![0, 1]).count_triangles(), 0);
    assert_eq!(mesh(true, 9, vec![0, 1, 2]).count_triangles(), 1);
    assert_eq!(mesh(true, 9, vec![0, 1, 2, 3, 4]).count_triangles(), 1);
    assert_eq!(mesh(true, 9, vec![0, 1, 2, 3, 4, 5]).count_triangles(), 2);
}

#[test]
fn index_check_finds_the_vertex_that_is_not_there() {
    assert!(mesh(true, 3, vec![0, 1, 2]).check_indices());
    assert!(!mesh(true, 3, vec![0, 1, 3]).check_indices());
    assert!(!mesh(true, 3, vec![3, 1, 2]).check_indices());
    assert!(!mesh(true, 3, vec![0, 3, 2]).check_indices());
    // An index beyond the last complete triangle is never read.
    assert!(mesh(true, 3, vec![0, 1, 2, 7]).check_indices());
    assert!(mesh(true, 0, vec![]).check_indices());
}

#[test]
fn scene_check_passes_over_hidden_geometry() {
    assert!(check_scene(&vec![mesh(false, 1, vec![5, 6, 7]), mesh(true, 3, vec![0, 1, 2])]));
    assert!(!check_scene(&vec![mesh(true, 1, vec![5, 6, 7])]));
    assert!(check_scene(&Vec::new()));
}

#[test]
fn nearer_of_two_hits_is_picked() {
    let hits = vec![Some(2.0f32.to_bits()), Some(1.0f32.to_bits())];
    assert_eq!(closest_hit(&hits, near(), far()), Some(1));
}

#[test]
fn first_of_two_equally_near_hits_is_picked() {
    let hits = vec![None, Some(7), Some(5), Some(5), Some(9)];
    assert_eq!(closest_hit(&hits, 0, 100), Some(2));
}

#[test]
fn hits_at_or_below_the_floor_do_not_count() {
    let floor = near();
    assert_eq!(closest_hit(&vec![Some(floor)], floor, far()), None);
    assert_eq!(closest_hit(&vec![Some(0.05f32.to_bits())], floor, far()), None);
    assert_eq!(closest_hit(&vec![Some(floor + 1)], floor, far()), Some(0));
    assert_eq!(
        closest_hit(&vec![Some(0.05f32.to_bits()), Some(3.0f32.to_bits())], floor, far()),
        Some(1)
    );
}

#[test]
fn hits_at_the_ceiling_do_not_count() {
    assert_eq!(closest_hit(&vec![Some(far())], near(), far()), None);
    assert_eq!(closest_hit(&vec![Some(f32::MAX.to_bits())], near(), far()), Some(0));
}

#[test]
fn no_report_no_hit() {
    assert_eq!(closest_hit(&Vec::new(), near(), far()), None);
    assert_eq!(closest_hit(&vec![None, None], near(), far()), None);
}

#[test]
fn distance_keys_order_as_the_distances_do() {
    let distances = [0.100001f32, 0.5, 1.0, 1.5, 2.0, 1.0e9, f32::MAX];
    for pair in distances.windows(2) {
        assert!(pair[0] < pair[1]);
        assert!(pair[0].to_bits() < pair[1].to_bits());
    }
}

#[test]
fn overlapping_triangles_give_the_nearer_hit() {
    // Two unit triangles behind each other; the ray comes down the z axis.
    let scene = vec![mesh(true, 3, vec![0, 1, 2]), mesh(true, 3, vec![0, 1, 2])];
    let positions = vec![unit_triangle_at(-3.0), unit_triangle_at(0.0)];
    let origin = Vec3::new(0.25, 0.25, 1.0);
    let direction = Vec3::new(0.0, 0.0, -1.0);
    let hit = cast(&scene, &positions, origin, direction).unwrap();
    assert_eq!(hit.triangle, TriangleRef { geometry: 1, triangle: 0, v0: 0, v1: 1, v2: 2 });
    assert_eq!(f32::from_bits(hit.distance_key), 1.0);
    let point = origin + direction * f32::from_bits(hit.distance_key);
    assert_eq!(point, Vec3::new(0.25, 0.25, 0.0));
}

#[test]
fn empty_scene_is_never_hit() {
    let hit = cast(&Vec::new(), &Vec::new(), Vec3::new(0.25, 0.25, 1.0), Vec3::new(0.0, 0.0, -1.0));
    assert_eq!(hit, None);
}

#[test]
fn hidden_geometry_is_never_hit() {
    let scene = vec![mesh(false, 3, vec![0, 1, 2]), mesh(false, 3, vec![0, 1, 2])];
    let positions = vec![unit_triangle_at(0.0), unit_triangle_at(-1.0)];
    let hit = cast(&scene, &positions, Vec3::new(0.25, 0.25, 1.0), Vec3::new(0.0, 0.0, -1.0));
    assert_eq!(hit, None);
}

#[test]
fn hidden_geometry_in_front_does_not_shadow() {
    let scene = vec![mesh(false, 3, vec![0, 1, 2]), mesh(true, 3, vec![0, 1, 2])];
    let positions = vec![unit_triangle_at(0.0), unit_triangle_at(-1.0)];
    let hit = cast(&scene, &positions, Vec3::new(0.25, 0.25, 1.0), Vec3::new(0.0, 0.0, -1.0))
        .unwrap();
    assert_eq!(hit.triangle.geometry, 1);
    assert_eq!(f32::from_bits(hit.distance_key), 2.0);
}

#[test]
fn ray_that_misses_hits_nothing() {
    let scene = vec![mesh(true, 3, vec![0, 1, 2])];
    let positions = vec![unit_triangle_at(0.0)];
    // Away from the triangle.
    assert_eq!(
        cast(&scene, &positions, Vec3::new(0.25, 0.25, 1.0), Vec3::new(0.0, 0.0, 1.0)),
        None
    );
    // Past the triangle.
    assert_eq!(
        cast(&scene, &positions, Vec3::new(2.0, 2.0, 1.0), Vec3::new(0.0, 0.0, -1.0)),
        None
    );
}

#[test]
fn surface_closer_than_the_floor_is_passed_over() {
    let scene = vec![mesh(true, 3, vec![0, 1, 2]), mesh(true, 3, vec![0, 1, 2])];
    let positions = vec![unit_triangle_at(0.95), unit_triangle_at(0.0)];
    let hit = cast(&scene, &positions, Vec3::new(0.25, 0.25, 1.0), Vec3::new(0.0, 0.0, -1.0))
        .unwrap();
    assert_eq!(hit.triangle.geometry, 1);
}

#[test]
fn the_ray_is_asked_once_per_candidate_in_order() {
    let scene = vec![mesh(true, 4, vec![0, 1, 2, 0, 2, 3]), mesh(true, 3, vec![0, 1, 2])];
    let asked = std::cell::RefCell::new(Vec::new());
    let hit = find_closest_intersection(&scene, 0, u32::MAX, |t: TriangleRef| {
        asked.borrow_mut().push((t.geometry, t.triangle));
        None
    });
    assert_eq!(hit, None);
    assert_eq!(asked.into_inner(), vec![(0, 0), (0, 1), (1, 0)]);
}
