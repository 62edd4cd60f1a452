use nodle_usd::viewport::picking::{check_scene, pick_candidates, USDGeometry};
use nodle_usd::viewport::render::{
    ActiveCamera, CameraMode, ComplexityLevel, DrawCall, ShadingMode, USDRenderSettings,
    USDRenderer,
};

fn mesh(path: &str, visibility: bool) -> USDGeometry {
    USDGeometry {
        prim_path: path.to_string(),
        prim_type: "Mesh".to_string(),
        vertex_count: 3,
        indices: vec![0, 1, 2],
        material_path: None,
        visibility,
    }
}

#[test]
fn default_settings() {
    let settings = USDRenderSettings::default();
    assert_eq!(settings.shading_mode, ShadingMode::SmoothShaded);
    assert!(!settings.show_guides);
    assert!(settings.show_render);
    assert!(!settings.show_proxy);
    assert_eq!(settings.show_purposes, vec!["default", "render"]);
    assert_eq!(settings.complexity, ComplexityLevel::Medium);
    assert!(settings.enable_lighting);
    assert!(!settings.ambient_occlusion);
}

#[test]
fn new_renderer_shows_nothing() {
    let renderer = USDRenderer::new();
    assert_eq!(renderer.current_scene.stage_id, "");
    assert!(renderer.current_scene.geometries.is_empty());
    assert!(renderer.selected_prims.is_empty());
    assert_eq!(renderer.camera_mode, CameraMode::Viewport);
    assert_eq!(renderer.get_active_camera(), ActiveCamera::Viewport);
    assert_eq!(renderer.render_to_pass(&Vec::new()), vec![DrawCall::Grid, DrawCall::AxisGizmo]);
}

#[test]
fn load_stage_replaces_the_scene_by_the_placeholder_scene() {
    let mut renderer = USDRenderer::new();
    renderer.current_scene.geometries.push(mesh("/Old", true));
    renderer.select_prim("/Old");
    assert_eq!(renderer.load_stage("file:///tmp/a.usd"), Ok(()));
    assert_eq!(renderer.current_scene.stage_id, "file:///tmp/a.usd");
    let names: Vec<(&str, &str, usize, usize)> = renderer
        .current_scene
        .geometries
        .iter()
        .map(|g| (g.prim_path.as_str(), g.prim_type.as_str(), g.vertex_count, g.indices.len()))
        .collect();
    assert_eq!(
        names,
        vec![
            ("/World/Cube", "Cube", 24, 36),
            ("/World/Sphere", "Sphere", 561, 3072),
            ("/World/Plane", "Plane", 4, 6),
        ]
    );
    assert!(check_scene(&renderer.current_scene.geometries));
    assert_eq!(pick_candidates(&renderer.current_scene.geometries).len(), 12 + 1024 + 2);
    assert_eq!(renderer.selected_prims, vec!["/Old"]);
}

#[test]
fn mock_scene_is_added_to_what_is_there() {
    let mut renderer = USDRenderer::new();
    renderer.current_scene.geometries.push(mesh("/Old", true));
    renderer.create_mock_scene("s");
    let names: Vec<&str> =
        renderer.current_scene.geometries.iter().map(|g| g.prim_path.as_str()).collect();
    assert_eq!(names, vec!["/Old", "/World/Cube", "/World/Sphere", "/World/Plane"]);
}

#[test]
fn selecting_twice_selects_once() {
    let mut renderer = USDRenderer::new();
    renderer.select_prim("/World/Cube");
    renderer.select_prim("/World/Sphere");
    renderer.select_prim("/World/Cube");
    assert_eq!(renderer.selected_prims, vec!["/World/Cube", "/World/Sphere"]);
}

#[test]
fn deselecting_removes_every_occurrence() {
    let mut renderer = USDRenderer::new();
    renderer.selected_prims =
        vec!["/a".to_string(), "/b".to_string(), "/a".to_string(), "/c".to_string()];
    renderer.deselect_prim("/a");
    assert_eq!(renderer.selected_prims, vec!["/b", "/c"]);
    renderer.deselect_prim("/nothing");
    assert_eq!(renderer.selected_prims, vec!["/b", "/c"]);
    renderer.clear_selection();
    assert!(renderer.selected_prims.is_empty());
    renderer.deselect_prim("/b");
    assert!(renderer.selected_prims.is_empty());
}

#[test]
fn shading_and_camera_mode_are_set() {
    let mut renderer = USDRenderer::new();
    renderer.set_shading_mode(ShadingMode::Wireframe);
    assert_eq!(renderer.render_settings.shading_mode, ShadingMode::Wireframe);
    assert!(renderer.render_settings.enable_lighting);
    renderer.set_camera_mode(CameraMode::USDCamera("/cam".to_string()));
    assert_eq!(renderer.camera_mode, CameraMode::USDCamera("/cam".to_string()));
}

#[test]
fn scene_camera_is_used_where_the_scene_has_it() {
    let mut renderer = USDRenderer::new();
    renderer.current_scene.cameras =
        vec!["/cams/a".to_string(), "/cams/b".to_string(), "/cams/b".to_string()];
    renderer.set_camera_mode(CameraMode::USDCamera("/cams/b".to_string()));
    assert_eq!(renderer.get_active_camera(), ActiveCamera::Scene(1));
    renderer.set_camera_mode(CameraMode::USDCamera("/cams/a".to_string()));
    assert_eq!(renderer.get_active_camera(), ActiveCamera::Scene(0));
    renderer.set_camera_mode(CameraMode::USDCamera("/cams/c".to_string()));
    assert_eq!(renderer.get_active_camera(), ActiveCamera::Viewport);
    renderer.set_camera_mode(CameraMode::Viewport);
    assert_eq!(renderer.get_active_camera(), ActiveCamera::Viewport);
}

#[test]
fn frame_draws_what_is_visible_and_uploaded() {
    let mut renderer = USDRenderer::new();
    renderer.current_scene.geometries =
        vec![mesh("/a", true), mesh("/b", false), mesh("/c", true), mesh("/d", true)];
    let uploaded = vec!["/a".to_string(), "/b".to_string(), "/d".to_string()];
    assert_eq!(
        renderer.render_to_pass(&uploaded),
        vec![DrawCall::Mesh(0), DrawCall::Mesh(3), DrawCall::Grid, DrawCall::AxisGizmo]
    );
    renderer.set_shading_mode(ShadingMode::Wireframe);
    assert_eq!(
        renderer.render_to_pass(&uploaded),
        vec![DrawCall::Wireframe(0), DrawCall::Wireframe(3), DrawCall::Grid, DrawCall::AxisGizmo]
    );
    renderer.set_shading_mode(ShadingMode::WireframeOnSurface);
    renderer.render_settings.enable_lighting = false;
    assert_eq!(
        renderer.render_to_pass(&uploaded),
        vec![DrawCall::Wireframe(0), DrawCall::Wireframe(3), DrawCall::AxisGizmo]
    );
    for mode in [
        ShadingMode::FlatShaded,
        ShadingMode::SmoothShaded,
        ShadingMode::MaterialPreview,
        ShadingMode::Rendered,
    ] {
        renderer.set_shading_mode(mode);
        assert_eq!(
            renderer.render_to_pass(&uploaded),
            vec![DrawCall::Mesh(0), DrawCall::Mesh(3), DrawCall::AxisGizmo]
        );
    }
    assert_eq!(renderer.render_to_pass(&Vec::new()), vec![DrawCall::AxisGizmo]);
}
