use nodle_usd::engine::USDEngine;
use nodle_usd::nodes::data::{lookup, lookup_flag, lookup_text, NodeData, Scalar};
use nodle_usd::nodes::geometry_nodes::{USDCylinderLogic, USDSphereLogic};
use nodle_usd::nodes::lighting_nodes::USDRectLightLogic;
use nodle_usd::nodes::load_stage::{InterfaceParameter, LoadStageLogic, LoadStageNode};
use nodle_usd::nodes::metadata::PanelType;
use nodle_usd::nodes::naming::{choose_name, choose_path};
use nodle_usd::nodes::prim_nodes::{
    numbered, USDCamera, USDCube, USDDistantLight, USDMaterial, USDPreviewSurface, USDRectLight,
    USDSphere, USDSphereLight, USDTexture,
};
use nodle_usd::nodes::shading_nodes::USDMaterialLogic;
use nodle_usd::nodes::stage_nodes::{
    CreateStageLogic, USDCreateStage, USDPayload, USDReference, USDSubLayer,
};

fn text(s: &str) -> NodeData {
    NodeData::String(s.to_string())
}

fn entries(list: &[(&str, NodeData)]) -> Vec<(String, NodeData)> {
    list.iter().map(|(k, v)| (k.to_string(), v.clone())).collect()
}

fn shown(outputs: &Vec<(String, NodeData)>) -> Vec<(String, String)> {
    outputs.iter().map(|(k, v)| (k.clone(), format!("{:?}", v))).collect()
}

fn want(list: &[(&str, NodeData)]) -> Vec<(String, String)> {
    shown(&entries(list))
}

fn with_default_stage() -> USDEngine {
    let mut engine = USDEngine::new();
    engine.create_stage("default_stage").unwrap();
    engine
}

#[test]
fn numbered_names() {
    assert_eq!(numbered("/cube_", 0), "/cube_0");
    assert_eq!(numbered("stage_", 17), "stage_17");
}

#[test]
fn lookups_take_the_first_entry_of_a_name() {
    let list = entries(&[
        ("Stage", text("s")),
        ("flag", NodeData::Boolean(false)),
        ("Stage", text("t")),
        ("radius", NodeData::Float(Scalar { bits: 2.5f32.to_bits() })),
    ]);
    assert_eq!(lookup_text(&list, "Stage"), Some("s"));
    assert_eq!(lookup_text(&list, "stage"), None);
    assert_eq!(lookup_text(&list, "flag"), None);
    assert_eq!(lookup_flag(&list, "flag"), Some(false));
    assert_eq!(lookup_flag(&list, "Stage"), None);
    assert!(lookup(&list, "none").is_none());
    assert_eq!(
        lookup(&list, "radius").unwrap().as_float(),
        Some(Scalar { bits: 2.5f32.to_bits() })
    );
    assert_eq!(lookup(&list, "radius").unwrap().as_string(), None);
    assert_eq!(lookup(&list, "radius").unwrap().as_boolean(), None);
}

#[test]
fn create_stage_node_names_the_stage_after_itself() {
    let mut engine = USDEngine::new();
    assert_eq!(USDCreateStage::execute(&mut engine, 1), Ok("stage_1".to_string()));
    assert_eq!(engine.get_stage("stage_1").unwrap().path, "mock://stage_1");
    assert_eq!(USDCreateStage::execute(&mut engine, 1), Ok("stage_1".to_string()));
    assert_eq!(engine.list_stages(), vec!["stage_1"]);
}

#[test]
fn prim_nodes_create_on_the_default_stage() {
    let mut engine = with_default_stage();
    assert_eq!(USDCube::execute(&mut engine, 3), Ok("/cube_3".to_string()));
    assert_eq!(USDSphere::execute(&mut engine, 4), Ok("/sphere_4".to_string()));
    assert_eq!(USDCamera::execute(&mut engine, 5), Ok("/camera_5".to_string()));
    assert_eq!(USDDistantLight::execute(&mut engine, 6), Ok("/distant_light_6".to_string()));
    assert_eq!(USDSphereLight::execute(&mut engine, 7), Ok("/sphere_light_7".to_string()));
    assert_eq!(USDRectLight::execute(&mut engine, 8), Ok("/rect_light_8".to_string()));
    assert_eq!(USDMaterial::execute(&mut engine, 9), Ok("/material_9".to_string()));
    assert_eq!(USDPreviewSurface::execute(&mut engine, 10), Ok("/preview_surface_10".to_string()));
    assert_eq!(USDTexture::execute(&mut engine, 11), Ok("/texture_11".to_string()));
    let kinds: Vec<String> =
        engine.get_stage_prims("default_stage").iter().map(|p| p.prim_type.clone()).collect();
    assert_eq!(
        kinds,
        vec![
            "Cube", "Sphere", "Camera", "DistantLight", "SphereLight", "RectLight", "Material",
            "Shader", "Shader"
        ]
    );
}

#[test]
fn prim_nodes_fail_without_the_default_stage() {
    let mut engine = USDEngine::new();
    engine.create_stage("another").unwrap();
    let err = Err("Stage 'default_stage' not found".to_string());
    assert_eq!(USDCube::execute(&mut engine, 3), err);
    assert_eq!(USDSphere::execute(&mut engine, 3), err);
    assert_eq!(USDCamera::execute(&mut engine, 3), err);
    assert_eq!(USDDistantLight::execute(&mut engine, 3), err);
    assert_eq!(USDSphereLight::execute(&mut engine, 3), err);
    assert_eq!(USDRectLight::execute(&mut engine, 3), err);
    assert_eq!(USDMaterial::execute(&mut engine, 3), err);
    assert_eq!(USDPreviewSurface::execute(&mut engine, 3), err);
    assert_eq!(USDTexture::execute(&mut engine, 3), err);
    assert_eq!(USDSubLayer::execute(&engine, 3), err);
    assert_eq!(USDReference::execute(&mut engine, 3), err);
    assert_eq!(USDPayload::execute(&mut engine, 3), err);
    assert!(engine.get_stage_prims("default_stage").is_empty());
}

#[test]
fn composition_nodes_report() {
    let mut engine = with_default_stage();
    assert_eq!(
        USDSubLayer::execute(&engine, 12),
        Ok("SubLayer 'layers/sublayer_12.usda' with offset 0".to_string())
    );
    assert_eq!(
        USDReference::execute(&mut engine, 13),
        Ok("Reference to 'assets/character.usda' -> '/Character'".to_string())
    );
    assert_eq!(
        USDPayload::execute(&mut engine, 14),
        Ok("Payload to 'assets/environment.usda' -> '/Environment' (deferred)".to_string())
    );
    assert_eq!(engine.list_prims("default_stage"), vec!["/references/ref_13", "/payloads/payload_14"]);
    // The offset of a sublayer node is written as a float writes zero.
    assert_eq!(format!("{}", 0.0f64), "0");
}

#[test]
fn create_stage_logic_reads_identifier_from_input_then_parameter() {
    let mut engine = USDEngine::new();
    let out = CreateStageLogic::execute(&mut engine, &entries(&[]), &entries(&[]));
    assert_eq!(shown(&out), want(&[("Stage", text("default")), ("Root Path", text("/"))]));
    let out = CreateStageLogic::execute(
        &mut engine,
        &entries(&[]),
        &entries(&[("identifier", text("from_parameter")), ("in_memory", NodeData::Boolean(false))]),
    );
    assert_eq!(shown(&out), want(&[("Stage", text("from_parameter")), ("Root Path", text("/"))]));
    let out = CreateStageLogic::execute(
        &mut engine,
        &entries(&[("Identifier", text("from_input"))]),
        &entries(&[("identifier", text("from_parameter"))]),
    );
    assert_eq!(shown(&out), want(&[("Stage", text("from_input")), ("Root Path", text("/"))]));
    // An input that is no text shadows the parameter all the same.
    let out = CreateStageLogic::execute(
        &mut engine,
        &entries(&[("Identifier", NodeData::Boolean(true))]),
        &entries(&[("identifier", text("shadowed"))]),
    );
    assert_eq!(shown(&out), want(&[("Stage", text("default")), ("Root Path", text("/"))]));
    assert_eq!(engine.list_stages(), vec!["default", "from_parameter", "from_input"]);
}

#[test]
fn names_are_given_or_generated() {
    assert_eq!(choose_name(Some(&text("ball")), "sphere_", 7), "ball");
    assert_eq!(choose_name(Some(&text("")), "sphere_", 0x936d_a01f), "sphere_936da01f");
    assert_eq!(choose_name(Some(&NodeData::Boolean(true)), "sphere_", 1), "sphere_00000001");
    assert_eq!(choose_name(None, "cylinder_", u32::MAX), "cylinder_ffffffff");
    assert_eq!(choose_path(&entries(&[]), "/World", "ball"), "/World/ball");
    assert_eq!(
        choose_path(&entries(&[("Parent Path", text("/Set/"))]), "/World", "ball"),
        "/Set/ball"
    );
    assert_eq!(
        choose_path(&entries(&[("Parent Path", NodeData::Nothing)]), "/World/Lights", "key"),
        "/World/Lights/key"
    );
}

#[test]
fn sphere_logic_creates_under_the_parent() {
    let mut engine = USDEngine::new();
    engine.create_stage("s").unwrap();
    let inputs = entries(&[
        ("Stage", text("s")),
        ("Parent Path", text("/Set")),
        ("Name", text("ball")),
        ("Radius", NodeData::Float(Scalar { bits: 2.0f32.to_bits() })),
    ]);
    let out = USDSphereLogic::execute_named(&mut engine, &inputs, &entries(&[]), 1);
    assert_eq!(shown(&out), want(&[("Prim Path", text("/Set/ball")), ("Prim", text("/Set/ball"))]));
    assert!(engine.prim_exists("s", "/Set/ball"));
    assert_eq!(engine.get_stage_prims("s")[0].prim_type, "Sphere");
}

#[test]
fn sphere_logic_generates_a_name() {
    let mut engine = USDEngine::new();
    engine.create_stage("s").unwrap();
    let inputs = entries(&[("Stage", text("s"))]);
    let out = USDSphereLogic::execute_named(&mut engine, &inputs, &entries(&[]), 0xa1a2_a3a4);
    let path = "/World/sphere_a1a2a3a4";
    assert_eq!(shown(&out), want(&[("Prim Path", text(path)), ("Prim", text(path))]));
}

#[test]
fn sphere_logic_with_a_random_name() {
    let mut engine = USDEngine::new();
    engine.create_stage("s").unwrap();
    let inputs = entries(&[("Stage", text("s"))]);
    let out = USDSphereLogic::execute(&mut engine, &inputs, &entries(&[]));
    let path = match &out[0].1 {
        NodeData::String(p) => p.clone(),
        other => panic!("no path: {:?}", other),
    };
    let name = path.strip_prefix("/World/sphere_").unwrap();
    assert_eq!(name.len(), 8);
    assert!(name.chars().all(|c| c.is_ascii_digit() || ('a'..='f').contains(&c)));
    assert_eq!(engine.list_prims("s"), vec![path]);
}

#[test]
fn prim_logic_without_a_stage_creates_nothing() {
    let mut engine = USDEngine::new();
    engine.create_stage("s").unwrap();
    let nothing = want(&[("Prim Path", text("")), ("Prim", NodeData::Nothing)]);
    let out = USDSphereLogic::execute_named(&mut engine, &entries(&[]), &entries(&[]), 1);
    assert_eq!(shown(&out), nothing);
    let unknown = entries(&[("Stage", text("t"))]);
    let out = USDSphereLogic::execute_named(&mut engine, &unknown, &entries(&[]), 1);
    assert_eq!(shown(&out), nothing);
    let out = USDCylinderLogic::execute_named(&mut engine, &unknown, &entries(&[]), 1);
    assert_eq!(shown(&out), nothing);
    let not_text = entries(&[("Stage", NodeData::Any("s".to_string()))]);
    let out = USDCylinderLogic::execute_named(&mut engine, &not_text, &entries(&[]), 1);
    assert_eq!(shown(&out), nothing);
    let out = USDRectLightLogic::execute_named(&mut engine, &unknown, &entries(&[]), 1);
    assert_eq!(shown(&out), want(&[("Light Path", text("")), ("Light", NodeData::Nothing)]));
    let out = USDMaterialLogic::execute_named(&mut engine, &unknown, &entries(&[]), 1);
    assert_eq!(
        shown(&out),
        want(&[
            ("Material Path", text("")),
            ("Material", NodeData::Nothing),
            ("Surface Output", NodeData::Nothing)
        ])
    );
    assert!(engine.list_prims("s").is_empty());
    assert!(engine.list_prims("t").is_empty());
}

#[test]
fn cylinder_and_light_logic() {
    let mut engine = USDEngine::new();
    engine.create_stage("s").unwrap();
    let inputs = entries(&[("Stage", text("s")), ("Name", text("pipe"))]);
    let parameters = entries(&[("top_cap", NodeData::Boolean(false)), ("axis", text("Z"))]);
    let out = USDCylinderLogic::execute_named(&mut engine, &inputs, &parameters, 1);
    assert_eq!(shown(&out), want(&[("Prim Path", text("/World/pipe")), ("Prim", text("/World/pipe"))]));
    let out = USDRectLightLogic::execute_named(
        &mut engine,
        &entries(&[("Stage", text("s"))]),
        &entries(&[("enabled", NodeData::Boolean(false))]),
        0xff,
    );
    let light = "/World/Lights/rectLight_000000ff";
    assert_eq!(shown(&out), want(&[("Light Path", text(light)), ("Light", text(light))]));
    let kinds: Vec<String> =
        engine.get_stage_prims("s").iter().map(|p| p.prim_type.clone()).collect();
    assert_eq!(kinds, vec!["Cylinder", "RectLight"]);
}

#[test]
fn material_logic_creates_the_material_and_its_surface() {
    let mut engine = USDEngine::new();
    engine.create_stage("s").unwrap();
    let out = USDMaterialLogic::execute_named(
        &mut engine,
        &entries(&[("Stage", text("s"))]),
        &entries(&[("name", text("gold"))]),
        1,
    );
    assert_eq!(
        shown(&out),
        want(&[
            ("Material Path", text("/World/Materials/gold")),
            ("Material", text("/World/Materials/gold")),
            ("Surface Output", text("/World/Materials/gold/PreviewSurface")),
        ])
    );
    let kinds: Vec<(String, String)> = engine
        .get_stage_prims("s")
        .iter()
        .map(|p| (p.path.clone(), p.prim_type.clone()))
        .collect();
    assert_eq!(
        kinds,
        vec![
            ("/World/Materials/gold".to_string(), "Material".to_string()),
            ("/World/Materials/gold/PreviewSurface".to_string(), "Shader".to_string()),
        ]
    );
    // The input name wins over the parameter.
    let out = USDMaterialLogic::execute_named(
        &mut engine,
        &entries(&[("Stage", text("s")), ("Name", text("iron"))]),
        &entries(&[("name", text("gold"))]),
        1,
    );
    assert_eq!(out[0].1.as_string(), Some("/World/Materials/iron"));
    let out = USDMaterialLogic::execute(&mut engine, &entries(&[("Stage", text("s"))]), &entries(&[]));
    assert!(out[0].1.as_string().unwrap().starts_with("/World/Materials/material_"));
}

#[test]
fn load_node_defaults_and_parameters() {
    let node = LoadStageNode::default();
    assert_eq!(node.panel_type(), PanelType::Parameter);
    assert_eq!(node.panel_title(), "USD Load Stage");
    let parameters = node.get_parameters();
    let shown: Vec<String> = parameters.iter().map(|(k, v)| format!("{} = {:?}", k, v)).collect();
    assert_eq!(
        shown,
        vec![
            "file_path = FilePath { value: \"\", filter: \"USD Files (*.usd *.usda *.usdc *.usdz)\" }",
            "auto_reload = Boolean { value: false }",
            "load_payloads = Boolean { value: true }",
            "population_mask = String { value: \"\" }",
        ]
    );
}

#[test]
fn load_node_takes_known_parameters_of_the_fitting_kind() {
    let mut node = LoadStageNode::default();
    node.set_parameters(vec![
        ("file_path", InterfaceParameter::String { value: "/a.usd".to_string() }),
        ("auto_reload", InterfaceParameter::Boolean { value: true }),
        ("load_payloads", InterfaceParameter::String { value: "no".to_string() }),
        ("population_mask", InterfaceParameter::Boolean { value: true }),
        ("unknown", InterfaceParameter::Boolean { value: true }),
        (
            "file_path",
            InterfaceParameter::FilePath { value: "/b.usd".to_string(), filter: String::new() },
        ),
        ("population_mask", InterfaceParameter::String { value: "/World".to_string() }),
        ("file_path", InterfaceParameter::Boolean { value: true }),
    ]);
    let shown: Vec<String> =
        node.get_parameters().iter().map(|(_, v)| format!("{:?}", v)).collect();
    assert_eq!(
        shown,
        vec![
            "FilePath { value: \"/b.usd\", filter: \"USD Files (*.usd *.usda *.usdc *.usdz)\" }",
            "Boolean { value: true }",
            "Boolean { value: true }",
            "String { value: \"/World\" }",
        ]
    );
    assert_eq!(InterfaceParameter::Boolean { value: true }.get_string(), None);
    assert_eq!(InterfaceParameter::Boolean { value: true }.get_bool(), Some(true));
    assert_eq!(InterfaceParameter::String { value: "x".to_string() }.get_bool(), None);
}

#[test]
fn load_logic_hands_on_one_value() {
    let shown = |v: Vec<NodeData>| format!("{:?}", v);
    assert_eq!(
        shown(LoadStageLogic::process_with_parameters("", true, false, true, "")),
        "[Any(\"Empty USD Stage\")]"
    );
    assert_eq!(
        shown(LoadStageLogic::process_with_parameters("", false, false, true, "")),
        "[Any(\"Empty USD Stage\")]"
    );
    assert_eq!(
        shown(LoadStageLogic::process_with_parameters("/a.usd", false, false, true, "")),
        "[Any(\"Invalid USD Stage\")]"
    );
    assert_eq!(
        shown(LoadStageLogic::process_with_parameters("/a.usd", true, false, true, "")),
        "[Any(\"USDScene:file:///a.usd\")]"
    );
    assert_eq!(
        shown(LoadStageLogic::process(vec![NodeData::Boolean(true)])),
        "[Any(\"USD Stage - use parameters interface\")]"
    );
    assert_eq!(
        shown(LoadStageLogic::process(Vec::new())),
        "[Any(\"USD Stage - use parameters interface\")]"
    );
}

#[test]
fn load_node_runs_once_per_file() {
    let mut node = LoadStageNode::default();
    assert!(!node.refresh(true));
    node.set_file_path("/a.usd");
    assert!(!node.refresh(false));
    assert_eq!(format!("{:?}", node.process(Vec::new(), false)), "[Any(\"Invalid USD Stage\")]");
    assert!(node.refresh(true));
    assert!(format!("{:?}", node).contains("last_execution_result: Some(\"USDScene:file:///a.usd\")"));
    assert!(!node.refresh(true));
    node.set_file_path("/b.usd");
    assert!(format!("{:?}", node).contains("last_execution_result: None"));
    assert!(node.refresh(true));
    assert!(format!("{:?}", node).contains("USDScene:file:///b.usd"));
}
