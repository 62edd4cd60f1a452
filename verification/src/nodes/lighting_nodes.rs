//! Nodes that create lights from their inputs and parameters.

use vstd::prelude::*;
use crate::engine::USDEngine;
use crate::nodes::data::{lookup, lookup_flag, lookup_text, named, DataView, NodeData, Scalar};
use crate::nodes::interface::{add_line, lines, ItemView, Node, PanelItem, Widget, WidgetView};
use crate::nodes::metadata::{
    optional_port, required_port, Color32, DataType, MetadataView, NodeMetadata, PanelType,
    PortDefinition, ProcessingCost,
};
use crate::nodes::naming::{
    answer, child_path, choose_name, choose_path, prim_node_ran, random_fields, wanted_name,
};

verus! {

/// The panel of the rectangular light node.
#[derive(Debug, Default, Clone, Copy)]
pub struct USDRectLightNode;

/// What the rectangular light node does.
#[derive(Debug, Default, Clone, Copy)]
pub struct USDRectLightLogic;

impl USDRectLightLogic {
    /// The path of the rectangular light that the inputs ask for, where `token` is used
    /// for a generated name.
    pub open spec fn path(
        inputs: Seq<(String, NodeData)>,
        parameters: Seq<(String, NodeData)>,
        token: u32,
    ) -> Seq<char> {
        child_path(
            inputs,
            "/World/Lights"@,
            wanted_name(
                named(inputs, "Name"@),
                "rectLight_"@,
                token,
            ),
        )
    }

    /// Creates the rectangular light on the stage that the `Stage` input names, under the
    /// parent of the `Parent Path` input or `/World/Lights`, with the name
    /// of the `Name` input or `rectLight_` and `token` in hexadecimal.
    /// Intensity, color, temperature and size are attributes of the prim and
    /// are written by the caller.
    pub fn execute_named(
        engine: &mut USDEngine,
        inputs: &Vec<(String, NodeData)>,
        parameters: &Vec<(String, NodeData)>,
        token: u32,
    ) -> (outputs: Vec<(String, NodeData)>)
        requires
            old(engine).wf(),
        ensures
            final(engine).wf(),
            prim_node_ran(
                *old(engine),
                *final(engine),
                inputs@,
                Self::path(inputs@, parameters@, token),
                "RectLight"@,
                "Light Path"@,
                "Light"@,
                outputs@,
            ),
    {
        let stage_id: &str = match lookup_text(inputs, "Stage") {
            Some(t) => t,
            None => {
                return answer("Light Path", "Light", None);
            },
        };
        let given = lookup(inputs, "Name");
        let name = choose_name(given, "rectLight_", token);
        let path = choose_path(inputs, "/World/Lights", name.as_str());
        match engine.create_rect_light(stage_id, path.as_str()) {
            Ok(prim) => {
                let _ = engine.set_attribute(
                    stage_id,
                    path.as_str(),
                    "enableColorTemperature",
                    "true",
                );
                if lookup_flag(parameters, "enabled") == Some(false) {
                    let _ = engine.set_attribute(stage_id, path.as_str(), "visibility", "invisible");
                }
                answer("Light Path", "Light", Some(&prim))
            },
            Err(_) => answer("Light Path", "Light", None),
        }
    }

    /// Creates the rectangular light as `execute_named` does, with a random token for
    /// the generated name.
    pub fn execute(
        engine: &mut USDEngine,
        inputs: &Vec<(String, NodeData)>,
        parameters: &Vec<(String, NodeData)>,
    ) -> (outputs: Vec<(String, NodeData)>)
        requires
            old(engine).wf(),
        ensures
            final(engine).wf(),
            exists|token: u32|
                prim_node_ran(
                    *old(engine),
                    *final(engine),
                    inputs@,
                    #[trigger] Self::path(inputs@, parameters@, token),
                    "RectLight"@,
                    "Light Path"@,
                    "Light"@,
                    outputs@,
                ),
    {
        let token = random_fields().d1;
        Self::execute_named(engine, inputs, parameters, token)
    }
}

impl USDRectLightNode {
    /// How the rectangular light node with a panel presents itself to the editor.
    pub fn metadata() -> (m: NodeMetadata)
        ensures
            m@ =~~= (MetadataView {
                node_type: "USD_Lighting_RectLight"@,
                display_name: "USD Rect Light"@,
                category: seq!["3D"@, "USD"@, "Lighting"@],
                description: "Creates a USD rectangular area light"@,
                color: Some(Color32 { r: 255, g: 200, b: 100 }),
                icon: Some("💡"@),
                inputs: seq![
                    required_port("Stage"@, DataType::Any, "USD Stage reference"@),
                    required_port("Parent Path"@, DataType::String, "Parent prim path"@),
                    optional_port(
                        "Name"@,
                        DataType::String,
                        "Light name (auto-generated if empty)"@,
                    ),
                ],
                outputs: seq![
                    required_port("Light Path"@, DataType::String, "Created light path"@),
                    required_port("Light"@, DataType::Any, "USD Light reference"@),
                ],
                tags: seq!["usd"@, "lighting"@, "rect"@, "area"@],
                processing_cost: Some(ProcessingCost::Low),
                workspace_compatibility: seq!["3D"@, "USD"@],
                panel_type: Some(PanelType::Parameter),
            }),
    {
        NodeMetadata::new(
            "USD_Lighting_RectLight",
            "USD Rect Light",
            vec!["3D", "USD", "Lighting"],
            "Creates a USD rectangular area light",
        )
            .with_color(Color32::from_rgb(255, 200, 100))
            .with_icon("💡")
            .with_inputs(vec![
                PortDefinition::required("Stage", DataType::Any)
                    .with_description("USD Stage reference"),
                PortDefinition::required("Parent Path", DataType::String)
                    .with_description("Parent prim path"),
                PortDefinition::optional("Name", DataType::String)
                    .with_description("Light name (auto-generated if empty)"),
            ])
            .with_outputs(vec![
                PortDefinition::required("Light Path", DataType::String)
                    .with_description("Created light path"),
                PortDefinition::required("Light", DataType::Any)
                    .with_description("USD Light reference"),
            ])
            .with_tags(vec!["usd", "lighting", "rect", "area"])
            .with_processing_cost(ProcessingCost::Low)
            .with_workspace_compatibility(vec!["3D", "USD"])
            .with_panel_type(PanelType::Parameter)
    }
}

impl USDRectLightNode {
    /// The lines of the panel of the rectangular light node.
    /// Numbers are written by their bit patterns:
    /// `0x3f80_0000` is 1.0, `0x3c23_d70a` is 0.01, `0x0000_0000` is 0.0,
    /// `0x42c8_0000` is 100.0, `0x45cb_2000` is 6500.0,
    /// `0x4120_0000` is 10.0, `0x447a_0000` is 1000.0,
    /// `0x463b_8000` is 12000.0.
    pub open spec fn panel_lines() -> Seq<ItemView> {
        seq![
            ItemView::Heading("USD Rect Light"@),
            ItemView::Separator,
            ItemView::Parameter {
                name: "intensity"@,
                label: "Intensity"@,
                default: DataView::Float(Scalar { bits: 0x3f80_0000 }),
                widget: WidgetView::Drag {
                    speed: Scalar { bits: 0x3c23_d70a },
                    min: Scalar { bits: 0x0000_0000 },
                    max: Scalar { bits: 0x42c8_0000 },
                    suffix: ""@,
                },
            },
            ItemView::Parameter {
                name: "color"@,
                label: "Color"@,
                default: DataView::Color(
                    seq![
                        Scalar { bits: 0x3f80_0000 },
                        Scalar { bits: 0x3f80_0000 },
                        Scalar { bits: 0x3f80_0000 },
                        Scalar { bits: 0x3f80_0000 },
                    ],
                ),
                widget: WidgetView::ColorButton,
            },
            ItemView::Parameter {
                name: "temperature"@,
                label: "Temperature"@,
                default: DataView::Float(Scalar { bits: 0x45cb_2000 }),
                widget: WidgetView::Drag {
                    speed: Scalar { bits: 0x4120_0000 },
                    min: Scalar { bits: 0x447a_0000 },
                    max: Scalar { bits: 0x463b_8000 },
                    suffix: " K"@,
                },
            },
            ItemView::Separator,
            ItemView::Label("Dimensions"@),
            ItemView::Parameter {
                name: "width"@,
                label: "Width"@,
                default: DataView::Float(Scalar { bits: 0x3f80_0000 }),
                widget: WidgetView::Drag {
                    speed: Scalar { bits: 0x3c23_d70a },
                    min: Scalar { bits: 0x3c23_d70a },
                    max: Scalar { bits: 0x42c8_0000 },
                    suffix: " units"@,
                },
            },
            ItemView::Parameter {
                name: "height"@,
                label: "Height"@,
                default: DataView::Float(Scalar { bits: 0x3f80_0000 }),
                widget: WidgetView::Drag {
                    speed: Scalar { bits: 0x3c23_d70a },
                    min: Scalar { bits: 0x3c23_d70a },
                    max: Scalar { bits: 0x42c8_0000 },
                    suffix: " units"@,
                },
            },
            ItemView::Separator,
            ItemView::Parameter {
                name: "enabled"@,
                label: "Enabled"@,
                default: DataView::Boolean(true),
                widget: WidgetView::Checkbox { text: "Light enabled"@ },
            },
        ]
    }

    /// Builds the panel of the rectangular light node: its lines from top to bottom. The
    /// editor shows each parameter with `Node::current` and takes changes
    /// over with `Node::commit`.
    pub fn build_interface(node: &Node) -> (items: Vec<PanelItem>)
        ensures
            lines(items@) =~~= Self::panel_lines(),
    {
        let mut items: Vec<PanelItem> = Vec::new();
        add_line(&mut items, PanelItem::Heading("USD Rect Light".to_owned()));
        add_line(&mut items, PanelItem::Separator);
        add_line(
            &mut items,
            PanelItem::Parameter {
                name: "intensity".to_owned(),
                label: "Intensity".to_owned(),
                default: NodeData::Float(Scalar { bits: 0x3f80_0000 }),
                widget: Widget::Drag {
                    speed: Scalar { bits: 0x3c23_d70a },
                    min: Scalar { bits: 0x0000_0000 },
                    max: Scalar { bits: 0x42c8_0000 },
                    suffix: "".to_owned(),
                },
            },
        );
        add_line(
            &mut items,
            PanelItem::Parameter {
                name: "color".to_owned(),
                label: "Color".to_owned(),
                default: NodeData::Color(
                    [
                        Scalar { bits: 0x3f80_0000 },
                        Scalar { bits: 0x3f80_0000 },
                        Scalar { bits: 0x3f80_0000 },
                        Scalar { bits: 0x3f80_0000 },
                    ],
                ),
                widget: Widget::ColorButton,
            },
        );
        add_line(
            &mut items,
            PanelItem::Parameter {
                name: "temperature".to_owned(),
                label: "Temperature".to_owned(),
                default: NodeData::Float(Scalar { bits: 0x45cb_2000 }),
                widget: Widget::Drag {
                    speed: Scalar { bits: 0x4120_0000 },
                    min: Scalar { bits: 0x447a_0000 },
                    max: Scalar { bits: 0x463b_8000 },
                    suffix: " K".to_owned(),
                },
            },
        );
        add_line(&mut items, PanelItem::Separator);
        add_line(&mut items, PanelItem::Label("Dimensions".to_owned()));
        add_line(
            &mut items,
            PanelItem::Parameter {
                name: "width".to_owned(),
                label: "Width".to_owned(),
                default: NodeData::Float(Scalar { bits: 0x3f80_0000 }),
                widget: Widget::Drag {
                    speed: Scalar { bits: 0x3c23_d70a },
                    min: Scalar { bits: 0x3c23_d70a },
                    max: Scalar { bits: 0x42c8_0000 },
                    suffix: " units".to_owned(),
                },
            },
        );
        add_line(
            &mut items,
            PanelItem::Parameter {
                name: "height".to_owned(),
                label: "Height".to_owned(),
                default: NodeData::Float(Scalar { bits: 0x3f80_0000 }),
                widget: Widget::Drag {
                    speed: Scalar { bits: 0x3c23_d70a },
                    min: Scalar { bits: 0x3c23_d70a },
                    max: Scalar { bits: 0x42c8_0000 },
                    suffix: " units".to_owned(),
                },
            },
        );
        add_line(&mut items, PanelItem::Separator);
        add_line(
            &mut items,
            PanelItem::Parameter {
                name: "enabled".to_owned(),
                label: "Enabled".to_owned(),
                default: NodeData::Boolean(true),
                widget: Widget::Checkbox { text: "Light enabled".to_owned() },
            },
        );
        items
    }
}

} // verus!
