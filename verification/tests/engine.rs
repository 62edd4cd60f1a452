use nodle_usd::engine::USDEngine;

fn missing(stage: &str) -> String {
    format!("Stage '{}' not found", stage)
}

#[test]
fn new_engine_is_empty() {
    let engine = USDEngine::new();
    assert!(engine.list_stages().is_empty());
    assert!(engine.get_stage_ids().is_empty());
    assert!(engine.list_prims("s").is_empty());
    assert!(engine.get_stage("s").is_none());
    assert!(!engine.stage_exists("s"));
}

#[test]
fn create_stage_answers_the_handle_and_keeps_it() {
    let mut engine = USDEngine::new();
    let stage = engine.create_stage("shot").unwrap();
    assert_eq!(stage.identifier, "shot");
    assert_eq!(stage.path, "mock://shot");
    assert!(engine.stage_exists("shot"));
    assert!(!engine.stage_exists("sho"));
    let kept = engine.get_stage("shot").unwrap();
    assert_eq!(kept.identifier, "shot");
    assert_eq!(kept.path, "mock://shot");
    assert_eq!(engine.list_stages(), vec!["shot"]);
}

#[test]
fn a_second_stage_under_one_identifier_replaces_the_first() {
    let mut engine = USDEngine::new();
    engine.create_stage("a").unwrap();
    engine.create_stage("b").unwrap();
    let loaded = engine.load_stage("/tmp/scene.usda").unwrap();
    assert_eq!(loaded.identifier, "loaded_2");
    assert_eq!(loaded.path, "/tmp/scene.usda");
    // `loaded_2` is taken by name now; creating it again replaces the loaded one.
    engine.create_stage("loaded_2").unwrap();
    assert_eq!(engine.list_stages(), vec!["a", "b", "loaded_2"]);
    assert_eq!(engine.get_stage("loaded_2").unwrap().path, "mock://loaded_2");
    engine.create_stage("a").unwrap();
    assert_eq!(engine.list_stages(), vec!["a", "b", "loaded_2"]);
}

#[test]
fn loaded_stages_are_numbered_by_the_stages_open_before() {
    let mut engine = USDEngine::new();
    assert_eq!(engine.load_stage("a.usd").unwrap().identifier, "loaded_0");
    assert_eq!(engine.load_stage("b.usd").unwrap().identifier, "loaded_1");
    engine.create_stage("x").unwrap();
    assert_eq!(engine.load_stage("c.usd").unwrap().identifier, "loaded_3");
    assert_eq!(engine.get_stage("loaded_1").unwrap().path, "b.usd");
}

#[test]
fn create_stage_to_file_opens_the_stage_in_memory() {
    let mut engine = USDEngine::new();
    let stage = engine.create_stage_to_file("shot", "shot.usda").unwrap();
    assert_eq!(stage.path, "mock://shot");
    assert!(engine.stage_exists("shot"));
}

#[test]
fn prims_need_an_open_stage() {
    let mut engine = USDEngine::new();
    let err = engine.create_sphere("nowhere", "/ball").unwrap_err();
    assert_eq!(err, missing("nowhere"));
    assert!(!engine.prim_exists("nowhere", "/ball"));
    assert!(engine.list_prims("nowhere").is_empty());
}

#[test]
fn each_creator_makes_its_kind() {
    let mut e = USDEngine::new();
    e.create_stage("s").unwrap();
    let kinds = vec![
        e.create_xform("s", "/a").unwrap().prim_type,
        e.create_sphere("s", "/b").unwrap().prim_type,
        e.create_cube("s", "/c").unwrap().prim_type,
        e.create_cylinder("s", "/d").unwrap().prim_type,
        e.create_cone("s", "/e").unwrap().prim_type,
        e.create_plane("s", "/f").unwrap().prim_type,
        e.create_capsule("s", "/g").unwrap().prim_type,
        e.create_torus("s", "/h").unwrap().prim_type,
        e.create_mesh("s", "/i").unwrap().prim_type,
        e.create_points("s", "/j").unwrap().prim_type,
        e.create_curves("s", "/k", "cubic").unwrap().prim_type,
        e.create_camera("s", "/l").unwrap().prim_type,
        e.create_distant_light("s", "/m").unwrap().prim_type,
        e.create_sphere_light("s", "/n").unwrap().prim_type,
        e.create_rect_light("s", "/o").unwrap().prim_type,
        e.create_cylinder_light("s", "/p").unwrap().prim_type,
        e.create_dome_light("s", "/q", None).unwrap().prim_type,
        e.create_disk_light("s", "/r").unwrap().prim_type,
        e.create_material("s", "/s").unwrap().prim_type,
        e.create_shader("s", "/t", "UsdPreviewSurface").unwrap().prim_type,
        e.create_preview_surface("s", "/u").unwrap().prim_type,
        e.create_texture("s", "/v", "wood.jpg").unwrap().prim_type,
    ];
    assert_eq!(
        kinds,
        vec![
            "Xform", "Sphere", "Cube", "Cylinder", "Cone", "Plane", "Capsule", "Torus", "Mesh",
            "Points", "BasisCurves", "Camera", "DistantLight", "SphereLight", "RectLight",
            "CylinderLight", "DomeLight", "DiskLight", "Material", "Shader", "Shader", "Shader",
        ]
    );
    assert_eq!(e.list_prims("s").len(), 22);
    let prim = e.create_prim("s", "/w", "Scope").unwrap();
    assert_eq!((prim.path.as_str(), prim.prim_type.as_str(), prim.stage_id.as_str()), ("/w", "Scope", "s"));
}

#[test]
fn a_second_prim_under_one_key_replaces_the_first() {
    let mut engine = USDEngine::new();
    engine.create_stage("s").unwrap();
    engine.create_sphere("s", "/a").unwrap();
    engine.create_cube("s", "/b").unwrap();
    engine.create_cube("s", "/a").unwrap();
    assert_eq!(engine.list_prims("s"), vec!["/a", "/b"]);
    let kinds: Vec<String> =
        engine.get_stage_prims("s").iter().map(|p| p.prim_type.clone()).collect();
    assert_eq!(kinds, vec!["Cube", "Cube"]);
}

#[test]
fn prims_are_listed_by_the_prefix_of_their_key() {
    let mut engine = USDEngine::new();
    engine.create_stage("a").unwrap();
    engine.create_stage("a:b").unwrap();
    engine.create_stage("ab").unwrap();
    engine.create_sphere("a", "/one").unwrap();
    engine.create_sphere("a:b", "/two").unwrap();
    engine.create_sphere("ab", "/three").unwrap();
    // The key of `/two` is `a:b:/two`, which begins with `a:` as well.
    assert_eq!(engine.list_prims("a"), vec!["/one", "/two"]);
    assert_eq!(engine.list_prims("a:b"), vec!["/two"]);
    assert_eq!(engine.list_prims("ab"), vec!["/three"]);
    // By the stage a prim was created on, each prim belongs to one stage.
    let own: Vec<&str> = engine.get_stage_prims("a").iter().map(|p| p.path.as_str()).collect();
    assert_eq!(own, vec!["/one"]);
    assert!(engine.prim_exists("a", "b:/two"));
}

#[test]
fn clear_stage_removes_the_listed_prims_and_keeps_the_stage() {
    let mut engine = USDEngine::new();
    engine.create_stage("a").unwrap();
    engine.create_stage("b").unwrap();
    engine.create_sphere("a", "/one").unwrap();
    engine.create_sphere("b", "/two").unwrap();
    engine.create_cube("a", "/three").unwrap();
    assert_eq!(engine.clear_stage("a"), Ok(()));
    assert!(engine.list_prims("a").is_empty());
    assert_eq!(engine.list_prims("b"), vec!["/two"]);
    assert!(engine.stage_exists("a"));
    assert!(!engine.prim_exists("a", "/one"));
    assert!(engine.prim_exists("b", "/two"));
    assert_eq!(engine.clear_stage("c"), Err(missing("c")));
    // A cleared key can be taken again.
    engine.create_cube("a", "/one").unwrap();
    assert_eq!(engine.list_prims("a"), vec!["/one"]);
}

#[test]
fn operations_on_a_stage_check_that_it_is_open() {
    let mut engine = USDEngine::new();
    engine.create_stage("s").unwrap();
    assert_eq!(engine.save_stage("s", "out.usda", None), Ok(true));
    assert_eq!(engine.save_stage("s", "out.usdc", Some("usdc")), Ok(true));
    assert_eq!(engine.save_stage("t", "out.usda", None), Err(missing("t")));
    assert_eq!(engine.export_stage("s", "out.usda", "usda"), Ok(()));
    assert_eq!(engine.export_stage("t", "out.usda", "usda"), Err(missing("t")));
    assert_eq!(engine.set_attribute("s", "/x", "radius", "2"), Ok(()));
    assert_eq!(engine.set_attribute("t", "/x", "radius", "2"), Err(missing("t")));
    assert_eq!(engine.get_attribute("s", "/x", "radius"), Ok("mock_value_for_radius".to_string()));
    assert_eq!(engine.get_attribute("t", "/x", "radius"), Err(missing("t")));
    assert_eq!(engine.set_default_prim("s", "/World"), Ok(()));
    assert_eq!(engine.set_default_prim("t", "/World"), Err(missing("t")));
    assert_eq!(engine.set_prim_purpose("s", "/x", "render"), Ok(()));
    assert_eq!(engine.set_prim_purpose("t", "/x", "render"), Err(missing("t")));
    assert_eq!(engine.set_prim_visibility("s", "/x", "invisible"), Ok(()));
    assert_eq!(engine.set_prim_visibility("t", "/x", "invisible"), Err(missing("t")));
}

#[test]
fn operations_on_a_prim_check_that_it_exists() {
    let mut engine = USDEngine::new();
    engine.create_stage("s").unwrap();
    engine.create_cube("s", "/box").unwrap();
    engine.create_material("s", "/mat").unwrap();
    engine.create_camera("s", "/cam").unwrap();
    let gone = "Prim '/ghost' not found on stage 's'".to_string();
    assert_eq!(engine.set_transform("s", "/box"), Ok(()));
    assert_eq!(engine.set_transform("s", "/ghost"), Err(gone.clone()));
    assert_eq!(engine.set_translation("s", "/box"), Ok(()));
    assert_eq!(engine.set_translation("s", "/ghost"), Err(gone.clone()));
    assert_eq!(engine.set_rotation("s", "/box"), Ok(()));
    assert_eq!(engine.set_rotation("s", "/ghost"), Err(gone.clone()));
    assert_eq!(engine.set_scale("s", "/box"), Ok(()));
    assert_eq!(engine.set_scale("s", "/ghost"), Err(gone));
    assert_eq!(engine.set_camera_properties("s", "/cam"), Ok(()));
    assert_eq!(
        engine.set_camera_properties("s", "/ghost"),
        Err("Camera '/ghost' not found".to_string())
    );
    assert_eq!(engine.bind_material("s", "/box", "/mat"), Ok(()));
    let unbound = Err("Prim or material not found".to_string());
    assert_eq!(engine.bind_material("s", "/box", "/ghost"), unbound);
    assert_eq!(engine.bind_material("s", "/ghost", "/mat"), unbound);
    assert_eq!(engine.bind_material("t", "/box", "/mat"), unbound);
}

#[test]
fn composition_reports_what_was_added() {
    let mut engine = USDEngine::new();
    engine.create_stage("s").unwrap();
    assert_eq!(
        engine.add_sublayer("s", "layers/animation.usda", "24"),
        Ok("SubLayer 'layers/animation.usda' with offset 24".to_string())
    );
    assert_eq!(engine.add_sublayer("t", "l.usda", "0"), Err(missing("t")));
    assert_eq!(
        engine.add_reference("s", "/references/character", "assets/hero.usda", Some("/Hero")),
        Ok("Reference to 'assets/hero.usda' -> '/Hero'".to_string())
    );
    assert_eq!(
        engine.add_reference("s", "/references/prop", "assets/prop.usda", None),
        Ok("Reference to 'assets/prop.usda' -> 'defaultPrim'".to_string())
    );
    assert_eq!(
        engine.add_payload("s", "/payloads/env", "assets/env.usda", Some("/Environment")),
        Ok("Payload to 'assets/env.usda' -> '/Environment' (deferred)".to_string())
    );
    assert_eq!(
        engine.add_payload("s", "/payloads/sky", "assets/sky.usda", None),
        Ok("Payload to 'assets/sky.usda' -> 'defaultPrim' (deferred)".to_string())
    );
    assert_eq!(engine.add_reference("t", "/r", "a.usda", None), Err(missing("t")));
    assert_eq!(engine.add_payload("t", "/p", "a.usda", None), Err(missing("t")));
    let kinds: Vec<(String, String)> = engine
        .get_stage_prims("s")
        .iter()
        .map(|p| (p.path.clone(), p.prim_type.clone()))
        .collect();
    assert_eq!(
        kinds,
        vec![
            ("/references/character".to_string(), "Xform".to_string()),
            ("/references/prop".to_string(), "Xform".to_string()),
            ("/payloads/env".to_string(), "Xform".to_string()),
            ("/payloads/sky".to_string(), "Xform".to_string()),
        ]
    );
}

#[test]
fn render_report_counts_the_prims_of_the_stage() {
    let mut engine = USDEngine::new();
    engine.create_stage("stage_1").unwrap();
    engine.create_stage("other").unwrap();
    engine.create_sphere("stage_1", "/sphere_test").unwrap();
    engine.create_cube("stage_1", "/cube_test").unwrap();
    engine.create_camera("stage_1", "/main_camera").unwrap();
    engine.create_distant_light("stage_1", "/sun_light").unwrap();
    engine.create_sphere_light("stage_1", "/fill_light").unwrap();
    engine.create_material("stage_1", "/materials/pbr_mat").unwrap();
    engine.create_preview_surface("stage_1", "/shaders/pbr_surface").unwrap();
    engine.create_texture("stage_1", "/textures/diffuse_tex", "textures/metal_diffuse.jpg").unwrap();
    engine.create_sphere("other", "/elsewhere").unwrap();
    assert_eq!(
        engine.render_stage("stage_1", "main_viewport", "/main_camera", 1920, 1080),
        Ok("1920x1080 | 2 geo | 2 lights | 3 materials | camera: /main_camera".to_string())
    );
    assert_eq!(
        engine.render_stage("other", "main_viewport", "", 0, 1),
        Ok("0x1 | 1 geo | 0 lights | 0 materials | camera: ".to_string())
    );
    assert_eq!(engine.render_stage("none", "v", "/c", 1, 1), Err(missing("none")));
    let sum = engine.count_prims("stage_1");
    assert_eq!((sum.geometry, sum.lights, sum.materials), (2, 2, 3));
}

#[test]
fn render_report_counts_xforms_and_meshes_as_geometry() {
    let mut engine = USDEngine::new();
    engine.create_stage("s").unwrap();
    engine.create_xform("s", "/a").unwrap();
    engine.create_mesh("s", "/b").unwrap();
    engine.create_cylinder("s", "/c").unwrap();
    engine.create_rect_light("s", "/d").unwrap();
    engine.create_prim("s", "/e", "Lightning").unwrap();
    engine.create_prim("s", "/f", "light").unwrap();
    let sum = engine.count_prims("s");
    assert_eq!((sum.geometry, sum.lights, sum.materials), (2, 2, 0));
}
