use nodle_usd::viewport::mesh::{
    create_cube_geometry, create_plane_geometry, create_sphere_geometry, grid_indices,
    quad_list_indices, DEFAULT_MATERIAL_PATH, SPHERE_RINGS, SPHERE_SEGMENTS,
};

#[test]
fn cube_has_six_faces_of_two_triangles() {
    let cube = create_cube_geometry("/World/Cube");
    assert_eq!(cube.prim_path, "/World/Cube");
    assert_eq!(cube.prim_type, "Cube");
    assert_eq!(cube.vertex_count, 24);
    assert_eq!(
        cube.indices,
        vec![
            0, 1, 2, 0, 2, 3, // front
            4, 5, 6, 4, 6, 7, // back
            8, 9, 10, 8, 10, 11, // top
            12, 13, 14, 12, 14, 15, // bottom
            16, 17, 18, 16, 18, 19, // right
            20, 21, 22, 20, 22, 23, // left
        ]
    );
    assert_eq!(cube.material_path.as_deref(), Some(DEFAULT_MATERIAL_PATH));
    assert!(cube.visibility);
    assert!(cube.check_indices());
}

#[test]
fn plane_is_one_quad() {
    let plane = create_plane_geometry("/World/Plane");
    assert_eq!(plane.prim_type, "Plane");
    assert_eq!(plane.vertex_count, 4);
    assert_eq!(plane.indices, vec![0, 1, 2, 0, 2, 3]);
    assert_eq!(plane.material_path.as_deref(), Some("/World/DefaultMaterial"));
    assert!(plane.check_indices());
}

#[test]
fn sphere_is_a_grid_of_sixteen_rings_by_thirty_two_segments() {
    let sphere = create_sphere_geometry("/World/Sphere");
    assert_eq!(sphere.prim_path, "/World/Sphere");
    assert_eq!(sphere.prim_type, "Sphere");
    assert_eq!(sphere.vertex_count, 17 * 33);
    assert_eq!(sphere.indices.len(), 16 * 32 * 6);
    assert_eq!(&sphere.indices[..6], &[0, 33, 1, 1, 33, 34]);
    assert_eq!(&sphere.indices[6..12], &[1, 34, 2, 2, 34, 35]);
    // First patch of the second ring.
    assert_eq!(&sphere.indices[32 * 6..32 * 6 + 6], &[33, 66, 34, 34, 66, 67]);
    // Last patch: ring 15, segment 31.
    assert_eq!(&sphere.indices[16 * 32 * 6 - 6..], &[526, 559, 527, 527, 559, 560]);
    assert_eq!(sphere.indices.iter().max(), Some(&560));
    assert!(sphere.check_indices());
}

#[test]
fn grid_indices_follow_the_patch_rule() {
    let rings = 3u32;
    let segments = 5u32;
    let mut want = Vec::new();
    for ring in 0..rings {
        for segment in 0..segments {
            let current = ring * (segments + 1) + segment;
            let next = current + segments + 1;
            want.extend_from_slice(&[current, next, current + 1, current + 1, next, next + 1]);
        }
    }
    assert_eq!(grid_indices(rings, segments), want);
    assert_eq!(grid_indices(SPHERE_RINGS, SPHERE_SEGMENTS).len(), 3072);
}

#[test]
fn grid_without_rings_or_segments_is_empty() {
    assert_eq!(grid_indices(0, 0), Vec::<u32>::new());
    assert_eq!(grid_indices(0, 7), Vec::<u32>::new());
    assert_eq!(grid_indices(7, 0), Vec::<u32>::new());
}

#[test]
fn quad_list_covers_each_quad_with_two_triangles() {
    assert_eq!(quad_list_indices(0), Vec::<u32>::new());
    assert_eq!(quad_list_indices(1), vec![0, 1, 2, 0, 2, 3]);
    assert_eq!(quad_list_indices(2), vec![0, 1, 2, 0, 2, 3, 4, 5, 6, 4, 6, 7]);
}
