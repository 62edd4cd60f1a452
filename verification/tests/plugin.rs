use nodle_usd::nodes::data::{NodeData, Scalar};
use nodle_usd::nodes::geometry_nodes::{USDCylinderNode, USDSphereNode};
use nodle_usd::nodes::lighting_nodes::USDRectLightNode;
use nodle_usd::nodes::load_stage::LoadStageNode;
use nodle_usd::nodes::metadata::{
    Color32, DataType, NodeMetadata, PanelType, PortDefinition, ProcessingCost,
};
use nodle_usd::nodes::naming::{hyphenated, IdFields};
use nodle_usd::nodes::prim_nodes::{
    USDCamera, USDCube, USDDistantLight, USDGetAttribute, USDMaterial, USDMesh, USDPreviewSurface,
    USDRectLight, USDSetAttribute, USDSphere, USDSphereLight, USDTexture, USDXform,
};
use nodle_usd::nodes::shading_nodes::USDMaterialNode;
use nodle_usd::nodes::stage_nodes::{
    CreateStageNode, USDCreateStage, USDLoadStage, USDPayload, USDReference, USDSaveStage,
    USDSubLayer,
};
use nodle_usd::plugin::factories::{
    SimpleUSDNode, USDCreateStageFactory, USDCubeFactory, USDLoadStageFactory, USDPlugin,
    USDSaveStageFactory, USDStageInspectorFactory,
};
use nodle_usd::plugin::load_stage_node::{hex, USDLoadStageNode, TEST_SCENE_PATH};
use nodle_usd::nodes::interface::{ParameterChange, Pos2, UIAction, UIElement};
use nodle_usd::plugin::viewport_node::{
    CameraManipulation, CameraSettings, USDViewport, USDViewportNode, ViewportSettings,
};

fn scalar(x: f32) -> Scalar {
    Scalar { bits: x.to_bits() }
}

fn at(x: f32, y: f32) -> Pos2 {
    Pos2 { x: scalar(x), y: scalar(y) }
}

fn ports(list: &Vec<PortDefinition>) -> Vec<(String, DataType, bool, String)> {
    list.iter().map(|p| (p.name.clone(), p.data_type, p.required, p.description.clone())).collect()
}

fn port(name: &str, data_type: DataType, required: bool, description: &str) -> (String, DataType, bool, String) {
    (name.to_string(), data_type, required, description.to_string())
}

fn shown_changes(changes: &Vec<ParameterChange>) -> Vec<String> {
    changes.iter().map(|c| format!("{} = {:?}", c.parameter, c.value)).collect()
}

fn shown_elements(elements: &Vec<UIElement>) -> Vec<String> {
    elements.iter().map(|e| format!("{:?}", e)).collect()
}

#[test]
fn builders_set_one_field_each() {
    let m = NodeMetadata::new("T", "Name", vec!["a", "b"], "what it does");
    assert_eq!((m.node_type.as_str(), m.display_name.as_str()), ("T", "Name"));
    assert_eq!(m.category, vec!["a", "b"]);
    assert_eq!(m.description, "what it does");
    assert_eq!(m.color, None);
    assert_eq!(m.icon, None);
    assert!(m.inputs.is_empty() && m.outputs.is_empty() && m.tags.is_empty());
    assert_eq!(m.processing_cost, None);
    assert!(m.workspace_compatibility.is_empty());
    assert_eq!(m.panel_type, None);
    let m = m
        .with_color(Color32::from_rgb(1, 2, 3))
        .with_icon("i")
        .with_inputs(vec![PortDefinition::optional("in", DataType::Float)])
        .with_outputs(vec![PortDefinition::required("out", DataType::Any).with_description("d")])
        .with_tags(vec!["t"])
        .with_processing_cost(ProcessingCost::Medium)
        .with_workspace_compatibility(vec!["w"])
        .with_panel_type(PanelType::Viewport);
    assert_eq!(m.color, Some(Color32 { r: 1, g: 2, b: 3 }));
    assert_eq!(m.icon.as_deref(), Some("i"));
    assert_eq!(ports(&m.inputs), vec![port("in", DataType::Float, false, "")]);
    assert_eq!(ports(&m.outputs), vec![port("out", DataType::Any, true, "d")]);
    assert_eq!(m.tags, vec!["t"]);
    assert_eq!(m.processing_cost, Some(ProcessingCost::Medium));
    assert_eq!(m.workspace_compatibility, vec!["w"]);
    assert_eq!(m.panel_type, Some(PanelType::Viewport));
    assert_eq!((m.node_type.as_str(), m.display_name.as_str()), ("T", "Name"));
}

#[test]
fn cube_node_presents_itself() {
    let m = USDCube::metadata();
    assert_eq!(m.node_type, "USD_Cube");
    assert_eq!(m.display_name, "USD Cube");
    assert_eq!(m.category, vec!["3D", "USD", "Primitives"]);
    assert_eq!(m.description, "Creates a USD cube primitive");
    assert_eq!(m.color, Some(Color32 { r: 200, g: 150, b: 100 }));
    assert_eq!(m.icon.as_deref(), Some("📦"));
    assert_eq!(
        ports(&m.inputs),
        vec![
            port("Stage", DataType::Any, true, "USD Stage reference"),
            port("Path", DataType::String, true, "Prim path (e.g., /World/MyCube)"),
            port("Size", DataType::Float, false, "Cube size (default: 1.0)"),
        ]
    );
    assert_eq!(
        ports(&m.outputs),
        vec![
            port("Prim", DataType::Any, true, "USD Cube prim"),
            port("Stage", DataType::Any, true, "Pass-through stage reference"),
        ]
    );
    assert_eq!(m.tags, vec!["usd", "3d", "geometry", "primitive"]);
    assert_eq!(m.processing_cost, Some(ProcessingCost::Low));
    assert_eq!(m.workspace_compatibility, vec!["3D", "USD"]);
    assert_eq!(m.panel_type, None);
}

#[test]
fn load_node_presents_itself() {
    let m = LoadStageNode::metadata();
    assert_eq!(m.node_type, "USD_LoadStage");
    assert_eq!(m.display_name, "Load Stage");
    assert_eq!(m.category, vec!["3D", "USD", "Stage"]);
    assert_eq!(m.description, "Loads a USD stage from a .usd, .usda, .usdc, or .usdz file");
    assert_eq!(m.color, Some(Color32 { r: 200, g: 150, b: 100 }));
    assert_eq!(m.icon.as_deref(), Some("📂"));
    assert!(m.inputs.is_empty());
    assert_eq!(
        ports(&m.outputs),
        vec![port("USD Stage", DataType::Any, true, "Loaded USD Stage data for downstream nodes")]
    );
    assert_eq!(m.tags, vec!["3d", "usd", "stage", "load", "import", "pixar", "file"]);
    assert_eq!(m.processing_cost, Some(ProcessingCost::High));
    assert_eq!(m.workspace_compatibility, vec!["3d", "usd", "pipeline"]);
    assert_eq!(m.panel_type, Some(PanelType::Parameter));
}

#[test]
fn every_node_has_its_type_name_and_ports() {
    let all = vec![
        (USDCreateStage::metadata(), "USD_CreateStage", 1, 1),
        (USDLoadStage::metadata(), "USD_LoadStage", 1, 1),
        (USDSaveStage::metadata(), "USD_SaveStage", 3, 1),
        (USDGetAttribute::metadata(), "USD_GetAttribute", 3, 2),
        (USDSetAttribute::metadata(), "USD_SetAttribute", 4, 1),
        (USDSubLayer::metadata(), "USD_SubLayer", 4, 2),
        (USDReference::metadata(), "USD_Reference", 5, 2),
        (USDPayload::metadata(), "USD_Payload", 5, 2),
        (USDCube::metadata(), "USD_Cube", 3, 2),
        (USDSphere::metadata(), "USD_Sphere", 3, 2),
        (USDMesh::metadata(), "USD_Mesh", 7, 2),
        (USDXform::metadata(), "USD_Xform", 3, 2),
        (USDCamera::metadata(), "USD_Camera", 5, 2),
        (USDDistantLight::metadata(), "USD_DistantLight", 4, 2),
        (USDSphereLight::metadata(), "USD_SphereLight", 4, 2),
        (USDRectLight::metadata(), "USD_RectLight", 5, 2),
        (USDMaterial::metadata(), "USD_Material", 3, 2),
        (USDPreviewSurface::metadata(), "USD_PreviewSurface", 8, 2),
        (USDTexture::metadata(), "USD_Texture", 6, 6),
        (CreateStageNode::metadata(), "USD_Stage_Create", 1, 2),
        (USDSphereNode::metadata(), "USD_Geometry_Sphere", 5, 2),
        (USDCylinderNode::metadata(), "USD_Geometry_Cylinder", 5, 2),
        (USDRectLightNode::metadata(), "USD_Lighting_RectLight", 3, 2),
        (USDMaterialNode::metadata(), "USD_Shading_Material", 4, 3),
        (USDViewport::default().metadata(), "USD_Viewport", 2, 1),
        (USDCreateStageFactory.metadata(), "USD_CreateStage", 0, 1),
        (USDLoadStageFactory.metadata(), "USD_LoadStage", 0, 1),
        (USDSaveStageFactory.metadata(), "USD_SaveStage", 2, 1),
        (USDStageInspectorFactory.metadata(), "USD_StageInspector", 1, 1),
    ];
    for (m, node_type, inputs, outputs) in all {
        assert_eq!(m.node_type, node_type);
        assert_eq!(m.inputs.len(), inputs, "{}", node_type);
        assert_eq!(m.outputs.len(), outputs, "{}", node_type);
        assert!(m.color.is_some() && m.icon.is_some());
        assert!(!m.workspace_compatibility.is_empty());
    }
    let viewport = USDViewport::default().metadata();
    assert_eq!(viewport.icon.as_deref(), Some("🎥"));
    assert_eq!(viewport.panel_type, Some(PanelType::Viewport));
    assert_eq!(viewport.color, Some(Color32 { r: 100, g: 200, b: 100 }));
    assert!(!viewport.inputs[1].required);
    let texture = USDTexture::metadata();
    let channels: Vec<&str> = texture.outputs.iter().map(|p| p.name.as_str()).collect();
    assert_eq!(channels, vec!["RGB", "R", "G", "B", "A", "Stage"]);
}

#[test]
fn plugin_registers_its_nodes_in_order() {
    let plugin = USDPlugin;
    let info = plugin.plugin_info();
    assert_eq!(info.name, "USD Plugin");
    assert_eq!(info.version, "0.2.0");
    assert_eq!(info.author, "Nodle Contributors");
    assert_eq!(info.description, "Complete Universal Scene Description (USD) support for Nodle");
    assert_eq!(info.compatible_version, "0.1.0");
    let mut registry = vec![USDCube::metadata()];
    plugin.register_nodes(&mut registry);
    let names: Vec<&str> = registry.iter().map(|m| m.node_type.as_str()).collect();
    assert_eq!(
        names,
        vec![
            "USD_Cube",
            "USD_Viewport",
            "USD_CreateStage",
            "USD_LoadStage",
            "USD_SaveStage",
            "USD_Mesh",
            "USD_Sphere",
            "USD_Cube",
            "USD_Cylinder",
            "USD_Xform",
            "USD_Translate",
            "USD_Rotate",
            "USD_Scale",
            "USD_DistantLight",
            "USD_SphereLight",
            "USD_DomeLight",
            "USD_Material",
            "USD_Shader",
            "USD_Texture",
            "USD_StageInspector",
        ]
    );
    assert_eq!(plugin.on_load(), Ok(()));
    assert_eq!(plugin.on_unload(), Ok(()));
}

#[test]
fn identifier_text_is_the_hyphenated_form() {
    let id = uuid::Uuid::parse_str("a1a2a3a4-b1b2-c1c2-d1d2-d3d4d5d6d7d8").unwrap();
    let (d1, d2, d3, d4) = id.as_fields();
    assert_eq!(hyphenated(&IdFields { d1, d2, d3, d4: *d4 }), "a1a2a3a4-b1b2-c1c2-d1d2-d3d4d5d6d7d8");
    assert_eq!(
        hyphenated(&IdFields { d1: 0, d2: 0, d3: 0, d4: [0; 8] }),
        "00000000-0000-0000-0000-000000000000"
    );
    for _ in 0..32 {
        let id = uuid::Uuid::new_v4();
        let (d1, d2, d3, d4) = id.as_fields();
        assert_eq!(hyphenated(&IdFields { d1, d2, d3, d4: *d4 }), id.to_string());
    }
}

#[test]
fn simple_node_shows_what_it_is() {
    let mut node = USDCubeFactory.create_node(at(10.0, 20.0));
    assert_eq!(node.node_type, "USD_Cube");
    assert_eq!(node.display_name, "Cube");
    assert_eq!(node.position(), at(10.0, 20.0));
    let parsed = uuid::Uuid::parse_str(&node.id()).unwrap();
    assert_eq!(parsed.get_version_num(), 4);
    assert_eq!(parsed.to_string(), node.id);
    let other = SimpleUSDNode::new("USD_Cube", "Cube", at(10.0, 20.0));
    assert_ne!(other.id, node.id);
    assert_eq!(
        shown_elements(&node.get_parameter_ui().elements),
        vec![
            "Label(\"🎭 Cube\")",
            "Separator",
            "Label(\"Node Type: USD_Cube\")",
            "Label(\"Parameters will be implemented soon...\")",
        ]
    );
    node.set_position(at(1.0, 2.0));
    assert_eq!(node.position(), at(1.0, 2.0));
    assert!(node.get_parameter("anything").is_none());
    node.set_parameter("anything", NodeData::Boolean(true));
    assert!(node
        .handle_ui_action(UIAction::ButtonClicked { action: "x".to_string() })
        .is_empty());
    assert!(node.process(&Vec::new()).is_empty());
    assert_eq!(node.node_type, "USD_Cube");
}

#[test]
fn hexadecimal_numerals_have_no_leading_zeros() {
    for n in [0u128, 1, 15, 16, 255, 256, 0xdead_beef, 1_700_000_000_000_000_000, u128::MAX] {
        assert_eq!(hex(n), format!("{:x}", n));
    }
}

#[test]
fn plugin_load_node_panel_and_parameters() {
    let mut node = USDLoadStageFactory.create_node(at(0.0, 0.0), 0x1f);
    assert_eq!(node.id(), "usd_load_stage_1f");
    assert_eq!(node.position(), at(0.0, 0.0));
    node.set_position(at(3.0, 4.0));
    assert_eq!(node.position(), at(3.0, 4.0));
    assert_eq!(
        shown_elements(&node.get_parameter_ui().elements),
        vec![
            "Heading(\"USD Load Stage\")",
            "Separator",
            "TextEdit { label: \"File Path\", value: \"\", parameter_name: \"file_path\" }",
            "Button { label: \"Browse...\", action: \"browse_file\" }",
            "Checkbox { label: \"Auto Reload\", value: false, parameter_name: \"auto_reload\" }",
            "Checkbox { label: \"Load Payloads\", value: true, parameter_name: \"load_payloads\" }",
        ]
    );
    node.set_parameter("file_path", NodeData::String("/a.usd".to_string()));
    node.set_parameter("auto_reload", NodeData::Boolean(true));
    node.set_parameter("load_payloads", NodeData::String("no".to_string()));
    node.set_parameter("unknown", NodeData::Boolean(true));
    assert_eq!(format!("{:?}", node.get_parameter("file_path")), "Some(String(\"/a.usd\"))");
    assert_eq!(format!("{:?}", node.get_parameter("auto_reload")), "Some(Boolean(true))");
    assert_eq!(format!("{:?}", node.get_parameter("load_payloads")), "Some(Boolean(true))");
    assert!(node.get_parameter("unknown").is_none());
    assert_eq!(
        format!("{:?}", node.process(&Vec::new(), true)),
        "[(\"Stage\", String(\"/a.usd\"))]"
    );
    assert!(node.process(&Vec::new(), false).is_empty());
    let fresh = USDLoadStageNode::new(at(0.0, 0.0), 1);
    let mut fresh = fresh;
    assert!(fresh.process(&Vec::new(), true).is_empty());
}

#[test]
fn plugin_load_node_actions() {
    let mut node = USDLoadStageNode::new(at(0.0, 0.0), 1);
    let changed = |parameter: &str, value: NodeData| UIAction::ParameterChanged {
        parameter: parameter.to_string(),
        value,
    };
    assert_eq!(
        shown_changes(&node.handle_ui_action(changed("file_path", NodeData::String("/x.usd".into())))),
        vec!["file_path = String(\"/x.usd\")"]
    );
    assert_eq!(
        shown_changes(&node.handle_ui_action(changed("auto_reload", NodeData::Boolean(true)))),
        vec!["auto_reload = Boolean(true)"]
    );
    assert_eq!(
        shown_changes(&node.handle_ui_action(changed("load_payloads", NodeData::Boolean(false)))),
        vec!["load_payloads = Boolean(false)"]
    );
    assert!(node.handle_ui_action(changed("file_path", NodeData::Boolean(false))).is_empty());
    assert!(node.handle_ui_action(changed("auto_reload", NodeData::String("x".into()))).is_empty());
    assert!(node.handle_ui_action(changed("population_mask", NodeData::String("x".into()))).is_empty());
    assert_eq!(format!("{:?}", node.get_parameter("file_path")), "Some(String(\"/x.usd\"))");
    assert_eq!(format!("{:?}", node.get_parameter("load_payloads")), "Some(Boolean(false))");
    assert!(node
        .handle_ui_action(UIAction::ButtonClicked { action: "other".to_string() })
        .is_empty());
    assert_eq!(
        shown_changes(&node.handle_ui_action(UIAction::ButtonClicked {
            action: "browse_file".to_string()
        })),
        vec![format!("file_path = String({:?})", TEST_SCENE_PATH)]
    );
    assert_eq!(
        format!("{:?}", node.get_parameter("file_path")),
        format!("Some(String({:?}))", TEST_SCENE_PATH)
    );
}

fn viewport_node() -> USDViewportNode {
    USDViewport::default().create_node(at(0.0, 0.0))
}

#[test]
fn viewport_defaults() {
    let settings = CameraSettings::default();
    assert_eq!(f32::from_bits(settings.orbit_sensitivity.bits), 0.5);
    assert_eq!(f32::from_bits(settings.pan_sensitivity.bits), 1.0);
    assert_eq!(f32::from_bits(settings.zoom_sensitivity.bits), 1.0);
    let node = viewport_node();
    assert!(uuid::Uuid::parse_str(&node.id()).is_ok());
    assert!(node.supports_viewport());
    assert_eq!(node.viewport_data.current_stage, "");
    let data = node.get_viewport_data().unwrap();
    assert_eq!(
        data.settings,
        ViewportSettings { wireframe: false, lighting: true, show_grid: true, show_ground_plane: false }
    );
    assert!(!data.scene_dirty && !data.settings_dirty);
}

#[test]
fn viewport_panel_lists_stage_camera_and_settings() {
    let mut node = viewport_node();
    let panel = shown_elements(&node.get_parameter_ui().elements);
    assert_eq!(panel.len(), 18);
    assert_eq!(panel[0], "Heading(\"USD Viewport Settings\")");
    assert_eq!(panel[2], "Label(\"📁 Stage Information\")");
    assert_eq!(panel[3], "Label(\"No USD stage loaded\")");
    assert_eq!(panel[5], "Label(\"🎥 Camera Settings\")");
    let slider = |label: &str, value: f32, name: &str| {
        format!(
            "Slider {{ label: {:?}, value: Scalar {{ bits: {} }}, min: Scalar {{ bits: {} }}, max: Scalar {{ bits: {} }}, parameter_name: {:?} }}",
            label,
            value.to_bits(),
            0.1f32.to_bits(),
            2.0f32.to_bits(),
            name
        )
    };
    assert_eq!(panel[6], slider("Orbit Sensitivity", 0.5, "orbit_sensitivity"));
    assert_eq!(panel[7], slider("Pan Sensitivity", 1.0, "pan_sensitivity"));
    assert_eq!(panel[8], slider("Zoom Sensitivity", 1.0, "zoom_sensitivity"));
    assert_eq!(panel[9], "Button { label: \"Reset Camera\", action: \"reset_camera\" }");
    match &node.get_parameter_ui().elements[11] {
        UIElement::Label(text) => assert_eq!(text, "⚙️ Viewport Settings"),
        other => panic!("no label: {:?}", other),
    }
    assert_eq!(panel[12], "Checkbox { label: \"Wireframe\", value: false, parameter_name: \"wireframe\" }");
    assert_eq!(panel[13], "Checkbox { label: \"Lighting\", value: true, parameter_name: \"lighting\" }");
    assert_eq!(panel[14], "Checkbox { label: \"Show Grid\", value: true, parameter_name: \"show_grid\" }");
    assert_eq!(
        panel[15],
        "Checkbox { label: \"Show Ground Plane\", value: false, parameter_name: \"show_ground_plane\" }"
    );
    assert_eq!(panel[16], "Separator");
    assert_eq!(panel[17], "Label(\"💡 USD Plugin - Data-driven viewport rendering\")");
    node.set_parameter("current_stage", NodeData::String("/shot.usd".to_string()));
    let panel = shown_elements(&node.get_parameter_ui().elements);
    assert_eq!(panel[3], "Label(\"Current Stage: /shot.usd\")");
}

#[test]
fn viewport_actions_change_and_report() {
    let mut node = viewport_node();
    let changed = |parameter: &str, value: NodeData| UIAction::ParameterChanged {
        parameter: parameter.to_string(),
        value,
    };
    let report = node.handle_ui_action(changed("orbit_sensitivity", NodeData::Float(scalar(1.5))));
    assert_eq!(
        shown_changes(&report),
        vec![format!("orbit_sensitivity = Float(Scalar {{ bits: {} }})", 1.5f32.to_bits())]
    );
    assert_eq!(node.viewport_data.camera_settings.orbit_sensitivity, scalar(1.5));
    assert_eq!(node.viewport_data.camera_settings.pan_sensitivity, scalar(1.0));
    node.handle_ui_action(changed("pan_sensitivity", NodeData::Float(scalar(0.25))));
    node.handle_ui_action(changed("zoom_sensitivity", NodeData::Float(scalar(2.0))));
    assert_eq!(node.viewport_data.camera_settings.pan_sensitivity, scalar(0.25));
    assert_eq!(node.viewport_data.camera_settings.zoom_sensitivity, scalar(2.0));
    assert!(!node.viewport_data.viewport_data.settings_dirty);
    assert!(node.handle_ui_action(changed("zoom_sensitivity", NodeData::Boolean(true))).is_empty());
    assert!(node.handle_ui_action(changed("wireframe", NodeData::Float(scalar(1.0)))).is_empty());
    assert!(node.handle_ui_action(changed("current_stage", NodeData::String("s".into()))).is_empty());
    assert_eq!(node.viewport_data.current_stage, "");
    for (name, value) in
        [("wireframe", true), ("lighting", false), ("show_grid", false), ("show_ground_plane", true)]
    {
        let report = node.handle_ui_action(changed(name, NodeData::Boolean(value)));
        assert_eq!(shown_changes(&report), vec![format!("{} = Boolean({})", name, value)]);
    }
    assert_eq!(
        node.viewport_data.viewport_data.settings,
        ViewportSettings { wireframe: true, lighting: false, show_grid: false, show_ground_plane: true }
    );
    assert!(node.viewport_data.viewport_data.settings_dirty);
    assert!(!node.viewport_data.viewport_data.scene_dirty);
    let report = node.handle_ui_action(UIAction::ButtonClicked { action: "reset_camera".into() });
    assert_eq!(shown_changes(&report), vec!["camera_reset = Boolean(true)"]);
    assert!(node.viewport_data.viewport_data.scene_dirty);
    assert!(node.handle_ui_action(UIAction::ButtonClicked { action: "other".into() }).is_empty());
}

#[test]
fn viewport_parameters_are_read_and_set() {
    let mut node = viewport_node();
    node.set_parameter("orbit_sensitivity", NodeData::Float(scalar(0.75)));
    node.set_parameter("pan_sensitivity", NodeData::Boolean(true));
    node.set_parameter("show_grid", NodeData::Boolean(false));
    node.set_parameter("lighting", NodeData::Float(scalar(0.0)));
    node.set_parameter("current_stage", NodeData::Boolean(true));
    node.set_parameter("nothing", NodeData::Boolean(true));
    let read = |node: &USDViewportNode, name: &str| format!("{:?}", node.get_parameter(name));
    assert_eq!(read(&node, "current_stage"), "Some(String(\"\"))");
    assert_eq!(
        read(&node, "orbit_sensitivity"),
        format!("Some(Float(Scalar {{ bits: {} }}))", 0.75f32.to_bits())
    );
    assert_eq!(
        read(&node, "pan_sensitivity"),
        format!("Some(Float(Scalar {{ bits: {} }}))", 1.0f32.to_bits())
    );
    assert_eq!(
        read(&node, "zoom_sensitivity"),
        format!("Some(Float(Scalar {{ bits: {} }}))", 1.0f32.to_bits())
    );
    assert_eq!(read(&node, "wireframe"), "Some(Boolean(false))");
    assert_eq!(read(&node, "lighting"), "Some(Boolean(true))");
    assert_eq!(read(&node, "show_grid"), "Some(Boolean(false))");
    assert_eq!(read(&node, "show_ground_plane"), "Some(Boolean(false))");
    assert_eq!(read(&node, "nothing"), "None");
    assert!(node.viewport_data.viewport_data.settings_dirty);
    node.set_parameter("current_stage", NodeData::String("/shot.usd".to_string()));
    assert_eq!(read(&node, "current_stage"), "Some(String(\"/shot.usd\"))");
    assert_eq!(node.viewport_data.viewport_data.scene_name, "USD Stage: /shot.usd");
    assert!(node.viewport_data.viewport_data.scene_dirty);
}

#[test]
fn viewport_process_loads_and_unloads() {
    let mut node = viewport_node();
    let stage = |path: &str| vec![("Stage".to_string(), NodeData::String(path.to_string()))];
    assert!(node.process(&Vec::new()).is_empty());
    assert!(!node.viewport_data.viewport_data.scene_dirty);
    assert_eq!(
        format!("{:?}", node.process(&stage("/a.usd"))),
        "[(\"Rendered Image\", String(\"USD Stage Loaded: /a.usd\"))]"
    );
    assert_eq!(node.viewport_data.current_stage, "/a.usd");
    assert_eq!(node.get_viewport_data().unwrap().scene_name, "USD Stage: /a.usd");
    node.viewport_data.viewport_data.scene_dirty = false;
    // The same stage again: nothing happens.
    assert!(node.process(&stage("/a.usd")).is_empty());
    assert!(!node.viewport_data.viewport_data.scene_dirty);
    // An input that is no text: nothing happens, the stage stays.
    assert!(node.process(&vec![("Stage".to_string(), NodeData::Boolean(true))]).is_empty());
    assert_eq!(node.viewport_data.current_stage, "/a.usd");
    assert_eq!(
        format!("{:?}", node.process(&stage("/b.usd"))),
        "[(\"Rendered Image\", String(\"USD Stage Loaded: /b.usd\"))]"
    );
    // No stage input: the stage is taken away.
    assert!(node.process(&vec![("Camera".to_string(), NodeData::String("/cam".into()))]).is_empty());
    assert_eq!(node.viewport_data.current_stage, "");
    assert_eq!(node.get_viewport_data().unwrap().scene_name, "");
    assert!(node.viewport_data.viewport_data.scene_dirty);
}

#[test]
fn viewport_takes_gestures_and_settings() {
    let mut node = viewport_node();
    node.handle_viewport_camera(CameraManipulation::Orbit {
        delta_x: scalar(0.1),
        delta_y: scalar(0.2),
    });
    assert!(node.viewport_data.viewport_data.scene_dirty);
    let settings =
        ViewportSettings { wireframe: true, lighting: true, show_grid: false, show_ground_plane: true };
    node.handle_viewport_settings(settings);
    assert_eq!(node.get_viewport_data().unwrap().settings, settings);
    assert!(node.viewport_data.viewport_data.settings_dirty);
    let mut viewport = USDViewport::default();
    viewport.load_stage("/c.usd");
    viewport.unload_stage();
    assert_eq!(viewport.current_stage, "");
    viewport.handle_camera_manipulation(CameraManipulation::Reset);
    assert!(viewport.viewport_data.scene_dirty);
}
