//! Nodes that create geometric primitives from their inputs and parameters.

use vstd::prelude::*;
use crate::engine::USDEngine;
use crate::nodes::data::{
    lookup, lookup_flag, lookup_text, named, text_value, DataView, NodeData, Scalar,
};
use crate::nodes::interface::{add_line, lines, ItemView, Node, PanelItem, Widget, WidgetView};
use crate::nodes::metadata::{
    optional_port, owned_words, required_port, Color32, DataType, MetadataView, NodeMetadata,
    PanelType, PortDefinition, ProcessingCost,
};
use crate::nodes::naming::{
    answer, child_path, choose_name, choose_path, prim_node_ran, random_fields, wanted_name,
};

verus! {

/// The panel of the cube node.
#[derive(Debug, Default, Clone, Copy)]
pub struct USDCubeNode;

/// What the cube node does.
#[derive(Debug, Default, Clone, Copy)]
pub struct USDCubeLogic;

/// The panel of the sphere node.
#[derive(Debug, Default, Clone, Copy)]
pub struct USDSphereNode;

/// What the sphere node does.
#[derive(Debug, Default, Clone, Copy)]
pub struct USDSphereLogic;

impl USDSphereLogic {
    /// The path of the sphere that the inputs ask for, where `token` is used
    /// for a generated name.
    pub open spec fn path(
        inputs: Seq<(String, NodeData)>,
        parameters: Seq<(String, NodeData)>,
        token: u32,
    ) -> Seq<char> {
        child_path(
            inputs,
            "/World"@,
            wanted_name(
                named(inputs, "Name"@),
                "sphere_"@,
                token,
            ),
        )
    }

    /// Creates the sphere on the stage that the `Stage` input names, under the
    /// parent of the `Parent Path` input or `/World`, with the name
    /// of the `Name` input or `sphere_` and `token` in hexadecimal.
    /// The radius is an attribute of the prim and is written by the caller.
    pub fn execute_named(
        engine: &mut USDEngine,
        inputs: &Vec<(String, NodeData)>,
        parameters: &Vec<(String, NodeData)>,
        token: u32,
    ) -> (outputs: Vec<(String, NodeData)>)
        requires
            old(engine).wf(),
        ensures
            final(engine).wf(),
            prim_node_ran(
                *old(engine),
                *final(engine),
                inputs@,
                Self::path(inputs@, parameters@, token),
                "Sphere"@,
                "Prim Path"@,
                "Prim"@,
                outputs@,
            ),
    {
        let stage_id: &str = match lookup_text(inputs, "Stage") {
            Some(t) => t,
            None => {
                return answer("Prim Path", "Prim", None);
            },
        };
        let given = lookup(inputs, "Name");
        let name = choose_name(given, "sphere_", token);
        let path = choose_path(inputs, "/World", name.as_str());
        match engine.create_sphere(stage_id, path.as_str()) {
            Ok(prim) => {
                let purpose: &str = match lookup_text(parameters, "purpose") {
                    Some(t) => t,
                    None => "default",
                };
                let visibility: &str = match lookup_text(parameters, "visibility") {
                    Some(t) => t,
                    None => "inherited",
                };
                let _ = engine.set_prim_purpose(stage_id, path.as_str(), purpose);
                let _ = engine.set_prim_visibility(stage_id, path.as_str(), visibility);
                answer("Prim Path", "Prim", Some(&prim))
            },
            Err(_) => answer("Prim Path", "Prim", None),
        }
    }

    /// Creates the sphere as `execute_named` does, with a random token for
    /// the generated name.
    pub fn execute(
        engine: &mut USDEngine,
        inputs: &Vec<(String, NodeData)>,
        parameters: &Vec<(String, NodeData)>,
    ) -> (outputs: Vec<(String, NodeData)>)
        requires
            old(engine).wf(),
        ensures
            final(engine).wf(),
            exists|token: u32|
                prim_node_ran(
                    *old(engine),
                    *final(engine),
                    inputs@,
                    #[trigger] Self::path(inputs@, parameters@, token),
                    "Sphere"@,
                    "Prim Path"@,
                    "Prim"@,
                    outputs@,
                ),
    {
        let token = random_fields().d1;
        Self::execute_named(engine, inputs, parameters, token)
    }
}

/// The panel of the cylinder node.
#[derive(Debug, Default, Clone, Copy)]
pub struct USDCylinderNode;

/// What the cylinder node does.
#[derive(Debug, Default, Clone, Copy)]
pub struct USDCylinderLogic;

impl USDCylinderLogic {
    /// The path of the cylinder that the inputs ask for, where `token` is used
    /// for a generated name.
    pub open spec fn path(
        inputs: Seq<(String, NodeData)>,
        parameters: Seq<(String, NodeData)>,
        token: u32,
    ) -> Seq<char> {
        child_path(
            inputs,
            "/World"@,
            wanted_name(
                named(inputs, "Name"@),
                "cylinder_"@,
                token,
            ),
        )
    }

    /// Creates the cylinder on the stage that the `Stage` input names, under the
    /// parent of the `Parent Path` input or `/World`, with the name
    /// of the `Name` input or `cylinder_` and `token` in hexadecimal.
    /// Radius and height are attributes of the prim and are written by the
    /// caller.
    pub fn execute_named(
        engine: &mut USDEngine,
        inputs: &Vec<(String, NodeData)>,
        parameters: &Vec<(String, NodeData)>,
        token: u32,
    ) -> (outputs: Vec<(String, NodeData)>)
        requires
            old(engine).wf(),
        ensures
            final(engine).wf(),
            prim_node_ran(
                *old(engine),
                *final(engine),
                inputs@,
                Self::path(inputs@, parameters@, token),
                "Cylinder"@,
                "Prim Path"@,
                "Prim"@,
                outputs@,
            ),
    {
        let stage_id: &str = match lookup_text(inputs, "Stage") {
            Some(t) => t,
            None => {
                return answer("Prim Path", "Prim", None);
            },
        };
        let given = lookup(inputs, "Name");
        let name = choose_name(given, "cylinder_", token);
        let path = choose_path(inputs, "/World", name.as_str());
        match engine.create_cylinder(stage_id, path.as_str()) {
            Ok(prim) => {
                let axis: &str = match lookup_text(parameters, "axis") {
                    Some(t) => t,
                    None => "Y",
                };
                let _ = engine.set_attribute(stage_id, path.as_str(), "axis", axis);
                if lookup_flag(parameters, "top_cap") == Some(false) {
                    let _ = engine.set_attribute(stage_id, path.as_str(), "topCap", "false");
                }
                if lookup_flag(parameters, "bottom_cap") == Some(false) {
                    let _ = engine.set_attribute(stage_id, path.as_str(), "bottomCap", "false");
                }
                answer("Prim Path", "Prim", Some(&prim))
            },
            Err(_) => answer("Prim Path", "Prim", None),
        }
    }

    /// Creates the cylinder as `execute_named` does, with a random token for
    /// the generated name.
    pub fn execute(
        engine: &mut USDEngine,
        inputs: &Vec<(String, NodeData)>,
        parameters: &Vec<(String, NodeData)>,
    ) -> (outputs: Vec<(String, NodeData)>)
        requires
            old(engine).wf(),
        ensures
            final(engine).wf(),
            exists|token: u32|
                prim_node_ran(
                    *old(engine),
                    *final(engine),
                    inputs@,
                    #[trigger] Self::path(inputs@, parameters@, token),
                    "Cylinder"@,
                    "Prim Path"@,
                    "Prim"@,
                    outputs@,
                ),
    {
        let token = random_fields().d1;
        Self::execute_named(engine, inputs, parameters, token)
    }
}

impl USDSphereNode {
    /// How the sphere node with a panel presents itself to the editor.
    pub fn metadata() -> (m: NodeMetadata)
        ensures
            m@ =~~= (MetadataView {
                node_type: "USD_Geometry_Sphere"@,
                display_name: "USD Sphere"@,
                category: seq!["3D"@, "USD"@, "Geometry"@, "Primitives"@],
                description: "Creates a USD sphere primitive"@,
                color: Some(Color32 { r: 200, g: 150, b: 100 }),
                icon: Some("🔵"@),
                inputs: seq![
                    required_port("Stage"@, DataType::Any, "USD Stage reference"@),
                    required_port("Parent Path"@, DataType::String, "Parent prim path"@),
                    optional_port(
                        "Name"@,
                        DataType::String,
                        "Prim name (auto-generated if empty)"@,
                    ),
                    optional_port("Radius"@, DataType::Float, "Sphere radius"@),
                    optional_port("Transform"@, DataType::Any, "Transform matrix"@),
                ],
                outputs: seq![
                    required_port("Prim Path"@, DataType::String, "Created prim path"@),
                    required_port("Prim"@, DataType::Any, "USD Prim reference"@),
                ],
                tags: seq!["usd"@, "geometry"@, "sphere"@, "primitive"@],
                processing_cost: Some(ProcessingCost::Low),
                workspace_compatibility: seq!["3D"@, "USD"@],
                panel_type: Some(PanelType::Parameter),
            }),
    {
        NodeMetadata::new(
            "USD_Geometry_Sphere",
            "USD Sphere",
            vec!["3D", "USD", "Geometry", "Primitives"],
            "Creates a USD sphere primitive",
        )
            .with_color(Color32::from_rgb(200, 150, 100))
            .with_icon("🔵")
            .with_inputs(vec![
                PortDefinition::required("Stage", DataType::Any)
                    .with_description("USD Stage reference"),
                PortDefinition::required("Parent Path", DataType::String)
                    .with_description("Parent prim path"),
                PortDefinition::optional("Name", DataType::String)
                    .with_description("Prim name (auto-generated if empty)"),
                PortDefinition::optional("Radius", DataType::Float)
                    .with_description("Sphere radius"),
                PortDefinition::optional("Transform", DataType::Any)
                    .with_description("Transform matrix"),
            ])
            .with_outputs(vec![
                PortDefinition::required("Prim Path", DataType::String)
                    .with_description("Created prim path"),
                PortDefinition::required("Prim", DataType::Any)
                    .with_description("USD Prim reference"),
            ])
            .with_tags(vec!["usd", "geometry", "sphere", "primitive"])
            .with_processing_cost(ProcessingCost::Low)
            .with_workspace_compatibility(vec!["3D", "USD"])
            .with_panel_type(PanelType::Parameter)
    }
}

impl USDCylinderNode {
    /// How the cylinder node with a panel presents itself to the editor.
    pub fn metadata() -> (m: NodeMetadata)
        ensures
            m@ =~~= (MetadataView {
                node_type: "USD_Geometry_Cylinder"@,
                display_name: "USD Cylinder"@,
                category: seq!["3D"@, "USD"@, "Geometry"@, "Primitives"@],
                description: "Creates a USD cylinder primitive"@,
                color: Some(Color32 { r: 200, g: 150, b: 100 }),
                icon: Some("🥤"@),
                inputs: seq![
                    required_port("Stage"@, DataType::Any, "USD Stage reference"@),
                    required_port("Parent Path"@, DataType::String, "Parent prim path"@),
                    optional_port(
                        "Name"@,
                        DataType::String,
                        "Prim name (auto-generated if empty)"@,
                    ),
                    optional_port("Radius"@, DataType::Float, "Cylinder radius"@),
                    optional_port("Height"@, DataType::Float, "Cylinder height"@),
                ],
                outputs: seq![
                    required_port("Prim Path"@, DataType::String, "Created prim path"@),
                    required_port("Prim"@, DataType::Any, "USD Prim reference"@),
                ],
                tags: seq!["usd"@, "geometry"@, "cylinder"@, "primitive"@],
                processing_cost: Some(ProcessingCost::Low),
                workspace_compatibility: seq!["3D"@, "USD"@],
                panel_type: Some(PanelType::Parameter),
            }),
    {
        NodeMetadata::new(
            "USD_Geometry_Cylinder",
            "USD Cylinder",
            vec!["3D", "USD", "Geometry", "Primitives"],
            "Creates a USD cylinder primitive",
        )
            .with_color(Color32::from_rgb(200, 150, 100))
            .with_icon("🥤")
            .with_inputs(vec![
                PortDefinition::required("Stage", DataType::Any)
                    .with_description("USD Stage reference"),
                PortDefinition::required("Parent Path", DataType::String)
                    .with_description("Parent prim path"),
                PortDefinition::optional("Name", DataType::String)
                    .with_description("Prim name (auto-generated if empty)"),
                PortDefinition::optional("Radius", DataType::Float)
                    .with_description("Cylinder radius"),
                PortDefinition::optional("Height", DataType::Float)
                    .with_description("Cylinder height"),
            ])
            .with_outputs(vec![
                PortDefinition::required("Prim Path", DataType::String)
                    .with_description("Created prim path"),
                PortDefinition::required("Prim", DataType::Any)
                    .with_description("USD Prim reference"),
            ])
            .with_tags(vec!["usd", "geometry", "cylinder", "primitive"])
            .with_processing_cost(ProcessingCost::Low)
            .with_workspace_compatibility(vec!["3D", "USD"])
            .with_panel_type(PanelType::Parameter)
    }
}

impl USDSphereNode {
    /// The lines of the panel of the sphere node.
    /// Numbers are written by their bit patterns:
    /// `0x3f80_0000` is 1.0, `0x3c23_d70a` is 0.01, `0x3a83_126f` is 0.001,
    /// `0x42c8_0000` is 100.0.
    pub open spec fn panel_lines() -> Seq<ItemView> {
        seq![
            ItemView::Heading("USD Sphere"@),
            ItemView::Separator,
            ItemView::Parameter {
                name: "radius"@,
                label: "Radius"@,
                default: DataView::Float(Scalar { bits: 0x3f80_0000 }),
                widget: WidgetView::Drag {
                    speed: Scalar { bits: 0x3c23_d70a },
                    min: Scalar { bits: 0x3a83_126f },
                    max: Scalar { bits: 0x42c8_0000 },
                    suffix: " units"@,
                },
            },
            ItemView::Separator,
            ItemView::Label("Tessellation"@),
            ItemView::Parameter {
                name: "subdivisions"@,
                label: "Subdivisions"@,
                default: DataView::Integer(32),
                widget: WidgetView::IntegerDrag {
                    speed: Scalar { bits: 0x3f80_0000 },
                    min: 4,
                    max: 128,
                },
            },
            ItemView::Separator,
            ItemView::Label("Display"@),
            ItemView::Parameter {
                name: "purpose"@,
                label: "Purpose"@,
                default: DataView::String("default"@),
                widget: WidgetView::Choice {
                    options: seq!["default"@, "render"@, "proxy"@, "guide"@],
                },
            },
            ItemView::Parameter {
                name: "visibility"@,
                label: "Visibility"@,
                default: DataView::String("inherited"@),
                widget: WidgetView::Choice {
                    options: seq!["inherited"@, "visible"@, "invisible"@],
                },
            },
        ]
    }

    /// Builds the panel of the sphere node: its lines from top to bottom. The
    /// editor shows each parameter with `Node::current` and takes changes
    /// over with `Node::commit`.
    pub fn build_interface(node: &Node) -> (items: Vec<PanelItem>)
        ensures
            lines(items@) =~~= Self::panel_lines(),
    {
        let mut items: Vec<PanelItem> = Vec::new();
        add_line(&mut items, PanelItem::Heading("USD Sphere".to_owned()));
        add_line(&mut items, PanelItem::Separator);
        add_line(
            &mut items,
            PanelItem::Parameter {
                name: "radius".to_owned(),
                label: "Radius".to_owned(),
                default: NodeData::Float(Scalar { bits: 0x3f80_0000 }),
                widget: Widget::Drag {
                    speed: Scalar { bits: 0x3c23_d70a },
                    min: Scalar { bits: 0x3a83_126f },
                    max: Scalar { bits: 0x42c8_0000 },
                    suffix: " units".to_owned(),
                },
            },
        );
        add_line(&mut items, PanelItem::Separator);
        add_line(&mut items, PanelItem::Label("Tessellation".to_owned()));
        add_line(
            &mut items,
            PanelItem::Parameter {
                name: "subdivisions".to_owned(),
                label: "Subdivisions".to_owned(),
                default: NodeData::Integer(32),
                widget: Widget::IntegerDrag {
                    speed: Scalar { bits: 0x3f80_0000 },
                    min: 4,
                    max: 128,
                },
            },
        );
        add_line(&mut items, PanelItem::Separator);
        add_line(&mut items, PanelItem::Label("Display".to_owned()));
        add_line(
            &mut items,
            PanelItem::Parameter {
                name: "purpose".to_owned(),
                label: "Purpose".to_owned(),
                default: text_value("default"),
                widget: Widget::Choice {
                    options: owned_words(&vec!["default", "render", "proxy", "guide"]),
                },
            },
        );
        add_line(
            &mut items,
            PanelItem::Parameter {
                name: "visibility".to_owned(),
                label: "Visibility".to_owned(),
                default: text_value("inherited"),
                widget: Widget::Choice {
                    options: owned_words(&vec!["inherited", "visible", "invisible"]),
                },
            },
        );
        items
    }
}

impl USDCylinderNode {
    /// The lines of the panel of the cylinder node.
    /// Numbers are written by their bit patterns:
    /// `0x3f80_0000` is 1.0, `0x3c23_d70a` is 0.01, `0x3a83_126f` is 0.001,
    /// `0x42c8_0000` is 100.0, `0x4000_0000` is 2.0.
    pub open spec fn panel_lines() -> Seq<ItemView> {
        seq![
            ItemView::Heading("USD Cylinder"@),
            ItemView::Separator,
            ItemView::Parameter {
                name: "radius"@,
                label: "Radius"@,
                default: DataView::Float(Scalar { bits: 0x3f80_0000 }),
                widget: WidgetView::Drag {
                    speed: Scalar { bits: 0x3c23_d70a },
                    min: Scalar { bits: 0x3a83_126f },
                    max: Scalar { bits: 0x42c8_0000 },
                    suffix: " units"@,
                },
            },
            ItemView::Parameter {
                name: "height"@,
                label: "Height"@,
                default: DataView::Float(Scalar { bits: 0x4000_0000 }),
                widget: WidgetView::Drag {
                    speed: Scalar { bits: 0x3c23_d70a },
                    min: Scalar { bits: 0x3a83_126f },
                    max: Scalar { bits: 0x42c8_0000 },
                    suffix: " units"@,
                },
            },
            ItemView::Separator,
            ItemView::Label("Orientation"@),
            ItemView::Parameter {
                name: "axis"@,
                label: "Axis"@,
                default: DataView::String("Y"@),
                widget: WidgetView::Choice { options: seq!["X"@, "Y"@, "Z"@] },
            },
            ItemView::Separator,
            ItemView::Label("Caps"@),
            ItemView::Parameter {
                name: "top_cap"@,
                label: "Top Cap"@,
                default: DataView::Boolean(true),
                widget: WidgetView::Checkbox { text: "Top cap"@ },
            },
            ItemView::Parameter {
                name: "bottom_cap"@,
                label: "Bottom Cap"@,
                default: DataView::Boolean(true),
                widget: WidgetView::Checkbox { text: "Bottom cap"@ },
            },
        ]
    }

    /// Builds the panel of the cylinder node: its lines from top to bottom. The
    /// editor shows each parameter with `Node::current` and takes changes
    /// over with `Node::commit`.
    pub fn build_interface(node: &Node) -> (items: Vec<PanelItem>)
        ensures
            lines(items@) =~~= Self::panel_lines(),
    {
        let mut items: Vec<PanelItem> = Vec::new();
        add_line(&mut items, PanelItem::Heading("USD Cylinder".to_owned()));
        add_line(&mut items, PanelItem::Separator);
        add_line(
            &mut items,
            PanelItem::Parameter {
                name: "radius".to_owned(),
                label: "Radius".to_owned(),
                default: NodeData::Float(Scalar { bits: 0x3f80_0000 }),
                widget: Widget::Drag {
                    speed: Scalar { bits: 0x3c23_d70a },
                    min: Scalar { bits: 0x3a83_126f },
                    max: Scalar { bits: 0x42c8_0000 },
                    suffix: " units".to_owned(),
                },
            },
        );
        add_line(
            &mut items,
            PanelItem::Parameter {
                name: "height".to_owned(),
                label: "Height".to_owned(),
                default: NodeData::Float(Scalar { bits: 0x4000_0000 }),
                widget: Widget::Drag {
                    speed: Scalar { bits: 0x3c23_d70a },
                    min: Scalar { bits: 0x3a83_126f },
                    max: Scalar { bits: 0x42c8_0000 },
                    suffix: " units".to_owned(),
                },
            },
        );
        add_line(&mut items, PanelItem::Separator);
        add_line(&mut items, PanelItem::Label("Orientation".to_owned()));
        add_line(
            &mut items,
            PanelItem::Parameter {
                name: "axis".to_owned(),
                label: "Axis".to_owned(),
                default: text_value("Y"),
                widget: Widget::Choice { options: owned_words(&vec!["X", "Y", "Z"]) },
            },
        );
        add_line(&mut items, PanelItem::Separator);
        add_line(&mut items, PanelItem::Label("Caps".to_owned()));
        add_line(
            &mut items,
            PanelItem::Parameter {
                name: "top_cap".to_owned(),
                label: "Top Cap".to_owned(),
                default: NodeData::Boolean(true),
                widget: Widget::Checkbox { text: "Top cap".to_owned() },
            },
        );
        add_line(
            &mut items,
            PanelItem::Parameter {
                name: "bottom_cap".to_owned(),
                label: "Bottom Cap".to_owned(),
                default: NodeData::Boolean(true),
                widget: Widget::Checkbox { text: "Bottom cap".to_owned() },
            },
        );
        items
    }
}

} // verus!
