use nodle_usd::nodes::data::{NodeData, Scalar};
use nodle_usd::nodes::geometry_nodes::{USDCylinderNode, USDSphereNode};
use nodle_usd::nodes::interface::{Node, PanelItem, ParameterChange, Pos2, Widget};
use nodle_usd::nodes::lighting_nodes::USDRectLightNode;
use nodle_usd::nodes::load_stage::{file_information, FileFacts, FileStatus, LoadStageNode};
use nodle_usd::nodes::metadata::{Color32, PanelType};
use nodle_usd::nodes::shading_nodes::USDMaterialNode;
use nodle_usd::nodes::stage_nodes::CreateStageNode;
use nodle_usd::runtime::search_path;
use nodle_usd::text::{check_shortening, decimal_u64, hex_fixed, shorten};
use nodle_usd::viewport::mesh::shared_cube_indices;
use nodle_usd::viewport::properties::{CameraMode, ShadingMode, ViewportProperties};

fn scalar(x: f32) -> Scalar {
    Scalar { bits: x.to_bits() }
}

fn origin() -> Pos2 {
    Pos2 { x: scalar(0.0), y: scalar(0.0) }
}

fn node() -> Node {
    Node::new(7, "node", origin())
}

fn shown(items: &Vec<PanelItem>) -> Vec<String> {
    items
        .iter()
        .map(|item| match item {
            PanelItem::Heading(t) => format!("# {}", t),
            PanelItem::Separator => "---".to_string(),
            PanelItem::Label(t) => t.clone(),
            PanelItem::Section(t) => format!("> {}", t),
            PanelItem::Colored { color, text } => {
                format!("({},{},{}) {}", color.r, color.g, color.b, text)
            }
            PanelItem::Button { label, action } => format!("[{}] -> {}", label, action),
            PanelItem::Parameter { name, label, default, widget } => {
                format!("{} \"{}\" = {} via {}", name, label, value(default), how(widget))
            }
        })
        .collect()
}

fn value(d: &NodeData) -> String {
    match d {
        NodeData::Nothing => "nothing".to_string(),
        NodeData::Boolean(b) => b.to_string(),
        NodeData::Integer(n) => n.to_string(),
        NodeData::Float(x) => format!("{:?}", f32::from_bits(x.bits)),
        NodeData::Color(c) => {
            format!("{:?}", c.iter().map(|x| f32::from_bits(x.bits)).collect::<Vec<_>>())
        }
        NodeData::String(s) => format!("{:?}", s),
        NodeData::Any(s) => format!("any {:?}", s),
    }
}

fn how(w: &Widget) -> String {
    let f = |x: &Scalar| f32::from_bits(x.bits);
    match w {
        Widget::Drag { speed, min, max, suffix } => {
            format!("drag {:?} in {:?}..={:?} {:?}", f(speed), f(min), f(max), suffix)
        }
        Widget::IntegerDrag { speed, min, max } => {
            format!("drag {:?} in {}..={}", f(speed), min, max)
        }
        Widget::Slider { min, max } => format!("slider {:?}..={:?}", f(min), f(max)),
        Widget::Choice { options } => format!("one of {:?}", options),
        Widget::Checkbox { text } => format!("checkbox {:?}", text),
        Widget::TextLine { hints } => format!("text {:?}", hints),
        Widget::ColorButton => "color".to_string(),
    }
}

#[test]
fn sphere_panel() {
    assert_eq!(
        shown(&USDSphereNode::build_interface(&node())),
        vec![
            "# USD Sphere",
            "---",
            "radius \"Radius\" = 1.0 via drag 0.01 in 0.001..=100.0 \" units\"",
            "---",
            "Tessellation",
            "subdivisions \"Subdivisions\" = 32 via drag 1.0 in 4..=128",
            "---",
            "Display",
            "purpose \"Purpose\" = \"default\" via one of [\"default\", \"render\", \"proxy\", \"guide\"]",
            "visibility \"Visibility\" = \"inherited\" via one of [\"inherited\", \"visible\", \"invisible\"]",
        ]
    );
}

#[test]
fn cylinder_panel() {
    assert_eq!(
        shown(&USDCylinderNode::build_interface(&node())),
        vec![
            "# USD Cylinder",
            "---",
            "radius \"Radius\" = 1.0 via drag 0.01 in 0.001..=100.0 \" units\"",
            "height \"Height\" = 2.0 via drag 0.01 in 0.001..=100.0 \" units\"",
            "---",
            "Orientation",
            "axis \"Axis\" = \"Y\" via one of [\"X\", \"Y\", \"Z\"]",
            "---",
            "Caps",
            "top_cap \"Top Cap\" = true via checkbox \"Top cap\"",
            "bottom_cap \"Bottom Cap\" = true via checkbox \"Bottom cap\"",
        ]
    );
}

#[test]
fn rect_light_panel() {
    assert_eq!(
        shown(&USDRectLightNode::build_interface(&node())),
        vec![
            "# USD Rect Light",
            "---",
            "intensity \"Intensity\" = 1.0 via drag 0.01 in 0.0..=100.0 \"\"",
            "color \"Color\" = [1.0, 1.0, 1.0, 1.0] via color",
            "temperature \"Temperature\" = 6500.0 via drag 10.0 in 1000.0..=12000.0 \" K\"",
            "---",
            "Dimensions",
            "width \"Width\" = 1.0 via drag 0.01 in 0.01..=100.0 \" units\"",
            "height \"Height\" = 1.0 via drag 0.01 in 0.01..=100.0 \" units\"",
            "---",
            "enabled \"Enabled\" = true via checkbox \"Light enabled\"",
        ]
    );
}

#[test]
fn material_panel() {
    assert_eq!(
        shown(&USDMaterialNode::build_interface(&node())),
        vec![
            "# USD Material",
            "---",
            "name \"Name\" = \"\" via text []",
            "---",
            "Preview Surface",
            "diffuse_color \"Diffuse Color\" = [0.8, 0.8, 0.8, 1.0] via color",
            "metallic \"Metallic\" = 0.0 via slider 0.0..=1.0",
            "roughness \"Roughness\" = 0.4 via slider 0.0..=1.0",
            "opacity \"Opacity\" = 1.0 via slider 0.0..=1.0",
            "ior \"IOR\" = 1.5 via drag 0.01 in 1.0..=3.0 \"\"",
        ]
    );
}

#[test]
fn create_stage_panel_shows_the_file_for_stages_on_disk() {
    let mut n = node();
    let in_memory = vec![
        "# Create Stage",
        "---",
        "identifier \"Stage ID\" = \"default\" via text []",
        "in_memory \"In Memory\" = true via checkbox \"Create in-memory stage\"",
        "default_prim \"Default Prim\" = \"/World\" via text []",
    ];
    assert_eq!(shown(&CreateStageNode::build_interface(&n)), in_memory);
    let mut changes = Vec::new();
    n.commit(&mut changes, "in_memory", NodeData::Boolean(true));
    assert_eq!(shown(&CreateStageNode::build_interface(&n)), in_memory);
    n.commit(&mut changes, "in_memory", NodeData::Boolean(false));
    let on_disk = vec![
        "# Create Stage",
        "---",
        "identifier \"Stage ID\" = \"default\" via text []",
        "in_memory \"In Memory\" = true via checkbox \"Create in-memory stage\"",
        "file_path \"File Path\" = \"stage.usda\" via text []",
        "default_prim \"Default Prim\" = \"/World\" via text []",
    ];
    assert_eq!(shown(&CreateStageNode::build_interface(&n)), on_disk);
    // A value that is no flag does not count as in memory.
    n.commit(&mut changes, "in_memory", NodeData::String("yes".to_string()));
    assert_eq!(shown(&CreateStageNode::build_interface(&n)), on_disk);
}

#[test]
fn node_holds_what_was_committed() {
    let mut n = node();
    let mut changes: Vec<ParameterChange> = Vec::new();
    assert_eq!(value(&n.current("radius", NodeData::Float(scalar(1.0)))), "1.0");
    n.commit(&mut changes, "radius", NodeData::Float(scalar(2.5)));
    n.commit(&mut changes, "axis", NodeData::String("Z".to_string()));
    n.commit(&mut changes, "radius", NodeData::Float(scalar(3.0)));
    assert_eq!(value(&n.current("radius", NodeData::Float(scalar(1.0)))), "3.0");
    assert_eq!(value(&n.current("axis", NodeData::String("Y".to_string()))), "\"Z\"");
    assert_eq!(value(&n.current("height", NodeData::Float(scalar(2.0)))), "2.0");
    let names: Vec<&str> = n.parameters.iter().map(|(k, _)| k.as_str()).collect();
    assert_eq!(names, vec!["radius", "axis"]);
    let noted: Vec<String> =
        changes.iter().map(|c| format!("{} = {}", c.parameter, value(&c.value))).collect();
    assert_eq!(noted, vec!["radius = 2.5", "axis = \"Z\"", "radius = 3.0"]);
    assert_eq!((n.id, n.title.as_str()), (7, "node"));
}

fn no_file() -> FileFacts {
    FileFacts { exists: false, size: None, modified: None }
}

const HEAD: [&str; 12] = [
    "# Load USD Stage",
    "---",
    "USD File:",
    "📄 No file selected",
    "[📂 Browse...] -> browse",
    "[🗑 Clear] -> clear",
    "file_path \"Manual Path Entry\" = \"\" via text [\"Path:\"]",
    "---",
    "> Load Options",
    "auto_reload \"Auto Reload\" = false via checkbox \"Automatically reload when file changes\"",
    "load_payloads \"Load Payloads\" = true via checkbox \"Load all payload references\"",
    "population_mask \"Population Mask\" = \"\" via text [\"Population Mask (optional):\", \"Specify prim paths to limit loading (e.g., '/World/Geometry/*')\"]",
];

fn head_with(path_line: &str) -> Vec<String> {
    let mut lines: Vec<String> = HEAD.iter().map(|s| s.to_string()).collect();
    lines[3] = path_line.to_string();
    lines
}

#[test]
fn load_panel_without_a_file() {
    let n = node();
    assert_eq!(shown(&LoadStageNode::build_interface(&n, no_file())), head_with("📄 No file selected"));
    // Facts about a file that was never chosen are not shown.
    let facts = FileFacts { exists: true, size: Some(1), modified: Some(1) };
    assert_eq!(shown(&LoadStageNode::build_interface(&n, facts)), head_with("📄 No file selected"));
}

#[test]
fn load_panel_for_a_file_that_is_there() {
    let mut n = node();
    let mut changes = Vec::new();
    LoadStageNode::press(&mut n, &mut changes, "browse", Some("/shots/Scene.USDA"));
    let facts = FileFacts { exists: true, size: Some(2048), modified: Some(1_431_648_000) };
    let mut want = head_with("📄 /shots/Scene.USDA");
    want.extend(
        [
            "---",
            "> File Information",
            "📊 Size: 2048 bytes",
            "📅 Modified: 2015-05-15 00:00:00 UTC",
            "(100,200,100) 📋 Format: .USDA",
        ]
        .iter()
        .map(|s| s.to_string()),
    );
    assert_eq!(shown(&LoadStageNode::build_interface(&n, facts)), want);
}

#[test]
fn load_panel_for_a_file_of_another_format() {
    let mut n = node();
    let mut changes = Vec::new();
    n.commit(&mut changes, "file_path", NodeData::String("/shots/scene.obj".to_string()));
    let facts = FileFacts { exists: true, size: Some(0), modified: Some(86_399) };
    let lines = shown(&LoadStageNode::build_interface(&n, facts));
    assert_eq!(
        &lines[12..],
        &[
            "---",
            "> File Information",
            "📊 Size: 0 bytes",
            "📅 Modified: 1970-01-01 23:59:59 UTC",
            "(200,100,100) 📋 Format: .obj",
            "(255,255,0) ⚠ Warning: Not a recognized USD format",
        ]
    );
    // Without an extension there is no line for the format.
    n.commit(&mut changes, "file_path", NodeData::String("/shots/.hidden".to_string()));
    let lines = shown(&LoadStageNode::build_interface(&n, facts));
    assert_eq!(lines.len(), 16);
    // A time that cannot be written, and one that is not known.
    let facts = FileFacts { exists: true, size: Some(0), modified: Some(u64::MAX / 2) };
    let lines = shown(&LoadStageNode::build_interface(&n, facts));
    assert_eq!(lines[15], "📅 Modified: Unknown");
    let facts = FileFacts { exists: true, size: Some(0), modified: None };
    assert_eq!(shown(&LoadStageNode::build_interface(&n, facts)).len(), 15);
    // No size: nothing can be read of the file.
    let facts = FileFacts { exists: true, size: None, modified: Some(0) };
    assert_eq!(
        &shown(&LoadStageNode::build_interface(&n, facts))[12..],
        &["---", "> File Information"]
    );
}

#[test]
fn load_panel_for_a_file_that_is_not_there() {
    let mut n = node();
    let mut changes = Vec::new();
    n.commit(&mut changes, "file_path", NodeData::String("/gone.usd".to_string()));
    let lines = shown(&LoadStageNode::build_interface(&n, no_file()));
    assert_eq!(lines[3], "📄 /gone.usd");
    assert_eq!(&lines[12..], &["---", "(255,0,0) ❌ File not found or inaccessible"]);
    LoadStageNode::press(&mut n, &mut changes, "clear", None);
    let lines = shown(&LoadStageNode::build_interface(&n, no_file()));
    assert_eq!(lines[3], "📄 ");
    assert_eq!(lines.len(), 12);
}

#[test]
fn load_panel_buttons() {
    let mut n = node();
    let mut changes = Vec::new();
    LoadStageNode::press(&mut n, &mut changes, "browse", None);
    LoadStageNode::press(&mut n, &mut changes, "other", Some("/x.usd"));
    assert!(changes.is_empty() && n.parameters.is_empty());
    LoadStageNode::press(&mut n, &mut changes, "browse", Some("/x.usd"));
    LoadStageNode::press(&mut n, &mut changes, "clear", Some("/ignored.usd"));
    let noted: Vec<String> =
        changes.iter().map(|c| format!("{} = {}", c.parameter, value(&c.value))).collect();
    assert_eq!(noted, vec!["file_path = \"/x.usd\"", "file_path = \"\""]);
    assert_eq!(value(&n.current("file_path", NodeData::Nothing)), "\"\"");
}

#[test]
fn long_paths_are_shortened_from_the_front() {
    let path = "/a/very/long/path/that/goes/on/and/on/until/it/is/too/long.usd";
    assert_eq!(path.len(), 62);
    assert!(check_shortening(path));
    let short = shorten(path);
    assert_eq!(short, format!("...{}", &path[path.len() - 47..]));
    assert_eq!(short.len(), 50);
    let fifty = "x".repeat(50);
    assert_eq!(shorten(&fifty), fifty);
    let fifty_one = "y".repeat(51);
    assert_eq!(shorten(&fifty_one), format!("...{}", "y".repeat(47)));
    assert_eq!(shorten(""), "");
    // Two bytes per character: whether the cut falls between characters
    // depends on the length.
    let even = "é".repeat(30);
    assert_eq!(even.len(), 60);
    assert!(!check_shortening(&even));
    let odd = format!("{}{}", "é".repeat(10), "a".repeat(45));
    assert!(check_shortening(&odd));
    assert_eq!(shorten(&odd), format!("...{}", &odd[odd.len() - 47..]));
    let mut n = node();
    let mut changes = Vec::new();
    n.commit(&mut changes, "file_path", NodeData::String(path.to_string()));
    assert_eq!(
        shown(&LoadStageNode::build_interface(&n, no_file()))[3],
        format!("📄 ...{}", &path[path.len() - 47..])
    );
}

#[test]
fn file_information_lines() {
    assert!(file_information(None, true, Some(1), None, None).is_empty());
    assert!(file_information(Some(""), true, Some(1), None, None).is_empty());
    assert_eq!(
        shown(&file_information(Some("a.usdz"), true, Some(u64::MAX), Some("now"), Some(("usdz", "usdz")))),
        vec![
            "---",
            "> File Information",
            "📊 Size: 18446744073709551615 bytes",
            "📅 Modified: now",
            "(100,200,100) 📋 Format: .usdz",
        ]
    );
    for ext in ["usd", "usda", "usdc", "usdz"] {
        let lines = file_information(Some("a"), true, Some(1), None, Some((ext, ext)));
        assert_eq!(lines.len(), 4);
    }
    for ext in ["us", "usdx", "", "obj"] {
        let lines = file_information(Some("a"), true, Some(1), None, Some((ext, ext)));
        assert_eq!(lines.len(), 5);
    }
}

#[test]
fn load_node_status_and_creation() {
    let mut panel = LoadStageNode::default();
    assert_eq!(panel.status(true), FileStatus::NoFile);
    assert_eq!(panel.status(false), FileStatus::NoFile);
    panel.set_file_path("/a.usd");
    assert_eq!(panel.status(true), FileStatus::Ready);
    assert_eq!(panel.status(false), FileStatus::NotFound);
    let position = Pos2 { x: scalar(3.0), y: scalar(4.0) };
    let created = LoadStageNode::create(position);
    assert_eq!(created.id, 0);
    assert_eq!(created.title, "USD_LoadStage");
    assert_eq!(created.position, position);
    assert_eq!(created.color, Some(Color32 { r: 200, g: 150, b: 100 }));
    assert!(created.inputs.is_empty());
    assert_eq!(created.outputs, vec!["USD Stage"]);
    assert_eq!(created.panel_type, Some(PanelType::Parameter));
    let parameters: Vec<String> =
        created.parameters.iter().map(|(k, v)| format!("{} = {}", k, value(v))).collect();
    assert_eq!(
        parameters,
        vec!["file_path = \"\"", "auto_reload = false", "load_payloads = true", "population_mask = \"\""]
    );
}

#[test]
fn viewport_properties_and_presets() {
    let mut p = ViewportProperties::default();
    let bg: Vec<f32> = p.background_color.iter().map(|x| f32::from_bits(x.bits)).collect();
    assert_eq!(bg, vec![0.2, 0.2, 0.2, 1.0]);
    assert!(!p.enable_wireframe && p.enable_lighting && p.enable_grid && p.enable_axis_gizmo);
    assert_eq!(f32::from_bits(p.grid_size.bits), 10.0);
    assert_eq!(f32::from_bits(p.grid_spacing.bits), 1.0);
    assert_eq!((p.samples, p.max_samples), (4, 16));
    assert_eq!(p.shading_mode, ShadingMode::Smooth);
    assert_eq!(p.camera_mode, CameraMode::Perspective);
    p.press("Performance");
    assert_eq!((p.samples, p.enable_lighting), (1, false));
    p.press("Quality");
    assert_eq!((p.samples, p.enable_lighting), (8, true));
    p.press("Balanced");
    assert_eq!((p.samples, p.enable_lighting), (4, true));
    let before = p;
    p.press("Reset View");
    p.press("Fit All");
    p.press("performance");
    assert_eq!(p, before);
}

#[test]
fn viewport_properties_panel() {
    let mut p = ViewportProperties::default();
    p.shading_mode = ShadingMode::MaterialPreview;
    let lines = shown(&p.build_properties_ui());
    assert_eq!(
        lines,
        vec![
            "# Viewport Properties",
            "---",
            "> Display",
            "Background:",
            "background_color \"Background:\" = [0.2, 0.2, 0.2, 1.0] via color",
            "enable_wireframe \"Wireframe\" = false via checkbox \"Wireframe\"",
            "enable_lighting \"Lighting\" = true via checkbox \"Lighting\"",
            "enable_grid \"Grid\" = true via checkbox \"Grid\"",
            "enable_axis_gizmo \"Axis Gizmo\" = true via checkbox \"Axis Gizmo\"",
            "grid_size \"Grid Size\" = 10.0 via slider 1.0..=100.0",
            "grid_spacing \"Grid Spacing\" = 1.0 via slider 0.1..=10.0",
            "> Shading",
            "Shading Mode:",
            "shading_mode \"\" = \"MaterialPreview\" via one of [\"Wireframe\", \"Flat\", \"Smooth\", \"Textured\", \"Material Preview\"]",
            "> Camera",
            "Camera Mode:",
            "camera_mode \"\" = \"Perspective\" via one of [\"Perspective\", \"Orthographic\"]",
            "> Rendering",
            "samples \"Anti-aliasing Samples\" = 4 via drag 1.0 in 1..=16",
            "---",
            "Quick Presets:",
            "[Performance] -> Performance",
            "[Balanced] -> Balanced",
            "[Quality] -> Quality",
            "---",
            "Navigation:",
            "[Reset View] -> Reset View",
            "[Fit All] -> Fit All",
        ]
    );
    p.enable_grid = false;
    assert_eq!(shown(&p.build_properties_ui()).len(), 26);
}

#[test]
fn search_path_puts_the_directory_first() {
    assert_eq!(search_path("/opt/usd/bin", Some("/usr/bin:/bin")), "/opt/usd/bin:/usr/bin:/bin");
    assert_eq!(search_path("/opt/usd/lib", None), "/opt/usd/lib");
    assert_eq!(search_path("/opt/usd/lib", Some("")), "/opt/usd/lib:");
}

#[test]
fn shared_cube_has_twelve_triangles_over_eight_corners() {
    let indices = shared_cube_indices();
    assert_eq!(
        indices,
        vec![
            0, 1, 2, 2, 3, 0, 4, 5, 6, 6, 7, 4, 3, 2, 6, 6, 5, 3, 0, 4, 7, 7, 1, 0, 1, 7, 6, 6, 2,
            1, 4, 0, 3, 3, 5, 4
        ]
    );
    assert!(indices.iter().all(|i| *i < 8));
}

#[test]
fn numerals_of_every_width() {
    assert_eq!(decimal_u64(u64::MAX), "18446744073709551615");
    assert_eq!(decimal_u64(0), "0");
    assert_eq!(hex_fixed(0xabc, 2), "bc");
    assert_eq!(hex_fixed(0xabc, 4), "0abc");
    assert_eq!(hex_fixed(0xabc, 0), "");
    assert_eq!(hex_fixed(u64::MAX, 16), "ffffffffffffffff");
}
