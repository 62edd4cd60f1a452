//! Nodes that create materials from their inputs and parameters.

use vstd::prelude::*;
use vstd::string::*;
use crate::engine::{put_prim, PrimView, USDEngine};
use crate::nodes::data::{
    add_entry, listing, lookup, lookup_text, named, named_text, text_value, DataView, NodeData,
    Scalar,
};
use crate::nodes::interface::{add_line, lines, ItemView, Node, PanelItem, Widget, WidgetView};
use crate::nodes::metadata::{
    optional_port, required_port, Color32, DataType, MetadataView, NodeMetadata, PanelType,
    PortDefinition, ProcessingCost,
};
use crate::nodes::naming::{child_path, choose_name, choose_path, random_fields, wanted_name};

verus! {

/// The panel of the material node.
#[derive(Debug, Default, Clone, Copy)]
pub struct USDMaterialNode;

/// What the material node does.
#[derive(Debug, Default, Clone, Copy)]
pub struct USDMaterialLogic;

/// What the material node puts on its three outputs: the material's path
/// twice and the path of its surface shader, or an empty path and nothing.
pub open spec fn material_answered(paths: Option<(Seq<char>, Seq<char>)>) -> Seq<
    (Seq<char>, DataView),
> {
    match paths {
        Some((material, surface)) => seq![
            ("Material Path"@, DataView::String(material)),
            ("Material"@, DataView::String(material)),
            ("Surface Output"@, DataView::String(surface)),
        ],
        None => seq![
            ("Material Path"@, DataView::String(Seq::<char>::empty())),
            ("Material"@, DataView::Nothing),
            ("Surface Output"@, DataView::Nothing),
        ],
    }
}

fn material_answer(paths: Option<(&str, &str)>) -> (outputs: Vec<(String, NodeData)>)
    ensures
        listing(outputs@) == material_answered(
            match paths {
                Some((m, s)) => Some((m@, s@)),
                None => None,
            },
        ),
{
    let mut outputs: Vec<(String, NodeData)> = Vec::new();
    match paths {
        Some((material, surface)) => {
            add_entry(&mut outputs, "Material Path", text_value(material));
            add_entry(&mut outputs, "Material", text_value(material));
            add_entry(&mut outputs, "Surface Output", text_value(surface));
        },
        None => {
            proof {
                reveal_strlit("");
            }
            add_entry(&mut outputs, "Material Path", text_value(""));
            add_entry(&mut outputs, "Material", NodeData::Nothing);
            add_entry(&mut outputs, "Surface Output", NodeData::Nothing);
            assert(""@ =~= Seq::<char>::empty());
        },
    }
    assert(listing(outputs@) =~= material_answered(
        match paths {
            Some((m, s)) => Some((m@, s@)),
            None => None,
        },
    ));
    outputs
}

impl USDMaterialLogic {
    /// The path of the material that the inputs ask for, where `token` is
    /// used for a generated name. The name comes from the `Name` input where
    /// there is one, else from the `name` parameter.
    pub open spec fn path(
        inputs: Seq<(String, NodeData)>,
        parameters: Seq<(String, NodeData)>,
        token: u32,
    ) -> Seq<char> {
        child_path(
            inputs,
            "/World/Materials"@,
            wanted_name(
                match named(inputs, "Name"@) {
                    Some(d) => Some(d),
                    None => named(parameters, "name"@),
                },
                "material_"@,
                token,
            ),
        )
    }

    /// The path of the material's surface shader.
    pub open spec fn surface_path(material_path: Seq<char>) -> Seq<char> {
        material_path + "/PreviewSurface"@
    }

    /// What running the node comes to. Without a `Stage` input, or with one
    /// that names no open stage, nothing is created. Else the material is
    /// kept at `path` and its surface shader below it.
    pub open spec fn ran(
        before: USDEngine,
        after: USDEngine,
        inputs: Seq<(String, NodeData)>,
        path: Seq<char>,
        outputs: Seq<(String, NodeData)>,
    ) -> bool {
        &&& after.stages() == before.stages()
        &&& match named_text(inputs, "Stage"@) {
            Some(stage_id) => if before.has_stage(stage_id) {
                &&& after.prims() == put_prim(
                    put_prim(
                        before.prims(),
                        PrimView { path, prim_type: "Material"@, stage_id },
                    ),
                    PrimView { path: Self::surface_path(path), prim_type: "Shader"@, stage_id },
                )
                &&& listing(outputs) == material_answered(Some((path, Self::surface_path(path))))
            } else {
                &&& after.prims() == before.prims()
                &&& listing(outputs) == material_answered(None)
            },
            None => {
                &&& after.prims() == before.prims()
                &&& listing(outputs) == material_answered(None)
            },
        }
    }

    /// Creates a material with a preview surface shader below it. The
    /// shader's colors and factors are attributes of the prim and are written
    /// by the caller.
    pub fn execute_named(
        engine: &mut USDEngine,
        inputs: &Vec<(String, NodeData)>,
        parameters: &Vec<(String, NodeData)>,
        token: u32,
    ) -> (outputs: Vec<(String, NodeData)>)
        requires
            old(engine).wf(),
        ensures
            final(engine).wf(),
            Self::ran(
                *old(engine),
                *final(engine),
                inputs@,
                Self::path(inputs@, parameters@, token),
                outputs@,
            ),
    {
        let stage_id: &str = match lookup_text(inputs, "Stage") {
            Some(t) => t,
            None => {
                return material_answer(None);
            },
        };
        let given = match lookup(inputs, "Name") {
            Some(d) => Some(d),
            None => lookup(parameters, "name"),
        };
        let name = choose_name(given, "material_", token);
        let path = choose_path(inputs, "/World/Materials", name.as_str());
        match engine.create_material(stage_id, path.as_str()) {
            Ok(material) => {
                let mut surface = path.clone();
                surface.append("/PreviewSurface");
                match engine.create_preview_surface(stage_id, surface.as_str()) {
                    Ok(_) => material_answer(Some((material.path.as_str(), surface.as_str()))),
                    Err(_) => material_answer(None),
                }
            },
            Err(_) => material_answer(None),
        }
    }

    /// Creates the material as `execute_named` does, with a random token for
    /// the generated name.
    pub fn execute(
        engine: &mut USDEngine,
        inputs: &Vec<(String, NodeData)>,
        parameters: &Vec<(String, NodeData)>,
    ) -> (outputs: Vec<(String, NodeData)>)
        requires
            old(engine).wf(),
        ensures
            final(engine).wf(),
            exists|token: u32|
                Self::ran(
                    *old(engine),
                    *final(engine),
                    inputs@,
                    #[trigger] Self::path(inputs@, parameters@, token),
                    outputs@,
                ),
    {
        let token = random_fields().d1;
        Self::execute_named(engine, inputs, parameters, token)
    }
}

impl USDMaterialNode {
    /// How the material node with a panel presents itself to the editor.
    pub fn metadata() -> (m: NodeMetadata)
        ensures
            m@ =~~= (MetadataView {
                node_type: "USD_Shading_Material"@,
                display_name: "USD Material"@,
                category: seq!["3D"@, "USD"@, "Shading"@, "Materials"@],
                description: "Creates a USD material for surface shading"@,
                color: Some(Color32 { r: 150, g: 100, b: 200 }),
                icon: Some("🎨"@),
                inputs: seq![
                    required_port("Stage"@, DataType::Any, "USD Stage reference"@),
                    required_port("Parent Path"@, DataType::String, "Parent prim path"@),
                    optional_port(
                        "Name"@,
                        DataType::String,
                        "Material name (auto-generated if empty)"@,
                    ),
                    optional_port("Surface Shader"@, DataType::Any, "Surface shader input"@),
                ],
                outputs: seq![
                    required_port("Material Path"@, DataType::String, "Created material path"@),
                    required_port("Material"@, DataType::Any, "USD Material reference"@),
                    required_port("Surface Output"@, DataType::Any, "Surface shader output"@),
                ],
                tags: seq!["usd"@, "shading"@, "material"@, "surface"@],
                processing_cost: Some(ProcessingCost::Low),
                workspace_compatibility: seq!["3D"@, "USD"@],
                panel_type: Some(PanelType::Parameter),
            }),
    {
        NodeMetadata::new(
            "USD_Shading_Material",
            "USD Material",
            vec!["3D", "USD", "Shading", "Materials"],
            "Creates a USD material for surface shading",
        )
            .with_color(Color32::from_rgb(150, 100, 200))
            .with_icon("🎨")
            .with_inputs(vec![
                PortDefinition::required("Stage", DataType::Any)
                    .with_description("USD Stage reference"),
                PortDefinition::required("Parent Path", DataType::String)
                    .with_description("Parent prim path"),
                PortDefinition::optional("Name", DataType::String)
                    .with_description("Material name (auto-generated if empty)"),
                PortDefinition::optional("Surface Shader", DataType::Any)
                    .with_description("Surface shader input"),
            ])
            .with_outputs(vec![
                PortDefinition::required("Material Path", DataType::String)
                    .with_description("Created material path"),
                PortDefinition::required("Material", DataType::Any)
                    .with_description("USD Material reference"),
                PortDefinition::required("Surface Output", DataType::Any)
                    .with_description("Surface shader output"),
            ])
            .with_tags(vec!["usd", "shading", "material", "surface"])
            .with_processing_cost(ProcessingCost::Low)
            .with_workspace_compatibility(vec!["3D", "USD"])
            .with_panel_type(PanelType::Parameter)
    }
}

impl USDMaterialNode {
    /// The lines of the panel of the material node.
    /// Numbers are written by their bit patterns:
    /// `0x3f4c_cccd` is 0.8, `0x3f80_0000` is 1.0, `0x0000_0000` is 0.0,
    /// `0x3ecc_cccd` is 0.4, `0x3fc0_0000` is 1.5, `0x3c23_d70a` is 0.01,
    /// `0x4040_0000` is 3.0.
    pub open spec fn panel_lines() -> Seq<ItemView> {
        seq![
            ItemView::Heading("USD Material"@),
            ItemView::Separator,
            ItemView::Parameter {
                name: "name"@,
                label: "Name"@,
                default: DataView::String(""@),
                widget: WidgetView::TextLine { hints: Seq::empty() },
            },
            ItemView::Separator,
            ItemView::Label("Preview Surface"@),
            ItemView::Parameter {
                name: "diffuse_color"@,
                label: "Diffuse Color"@,
                default: DataView::Color(
                    seq![
                        Scalar { bits: 0x3f4c_cccd },
                        Scalar { bits: 0x3f4c_cccd },
                        Scalar { bits: 0x3f4c_cccd },
                        Scalar { bits: 0x3f80_0000 },
                    ],
                ),
                widget: WidgetView::ColorButton,
            },
            ItemView::Parameter {
                name: "metallic"@,
                label: "Metallic"@,
                default: DataView::Float(Scalar { bits: 0x0000_0000 }),
                widget: WidgetView::Slider {
                    min: Scalar { bits: 0x0000_0000 },
                    max: Scalar { bits: 0x3f80_0000 },
                },
            },
            ItemView::Parameter {
                name: "roughness"@,
                label: "Roughness"@,
                default: DataView::Float(Scalar { bits: 0x3ecc_cccd }),
                widget: WidgetView::Slider {
                    min: Scalar { bits: 0x0000_0000 },
                    max: Scalar { bits: 0x3f80_0000 },
                },
            },
            ItemView::Parameter {
                name: "opacity"@,
                label: "Opacity"@,
                default: DataView::Float(Scalar { bits: 0x3f80_0000 }),
                widget: WidgetView::Slider {
                    min: Scalar { bits: 0x0000_0000 },
                    max: Scalar { bits: 0x3f80_0000 },
                },
            },
            ItemView::Parameter {
                name: "ior"@,
                label: "IOR"@,
                default: DataView::Float(Scalar { bits: 0x3fc0_0000 }),
                widget: WidgetView::Drag {
                    speed: Scalar { bits: 0x3c23_d70a },
                    min: Scalar { bits: 0x3f80_0000 },
                    max: Scalar { bits: 0x4040_0000 },
                    suffix: ""@,
                },
            },
        ]
    }

    /// Builds the panel of the material node: its lines from top to bottom. The
    /// editor shows each parameter with `Node::current` and takes changes
    /// over with `Node::commit`.
    pub fn build_interface(node: &Node) -> (items: Vec<PanelItem>)
        ensures
            lines(items@) =~~= Self::panel_lines(),
    {
        let mut items: Vec<PanelItem> = Vec::new();
        add_line(&mut items, PanelItem::Heading("USD Material".to_owned()));
        add_line(&mut items, PanelItem::Separator);
        add_line(
            &mut items,
            PanelItem::Parameter {
                name: "name".to_owned(),
                label: "Name".to_owned(),
                default: text_value(""),
                widget: Widget::TextLine { hints: Vec::new() },
            },
        );
        add_line(&mut items, PanelItem::Separator);
        add_line(&mut items, PanelItem::Label("Preview Surface".to_owned()));
        add_line(
            &mut items,
            PanelItem::Parameter {
                name: "diffuse_color".to_owned(),
                label: "Diffuse Color".to_owned(),
                default: NodeData::Color(
                    [
                        Scalar { bits: 0x3f4c_cccd },
                        Scalar { bits: 0x3f4c_cccd },
                        Scalar { bits: 0x3f4c_cccd },
                        Scalar { bits: 0x3f80_0000 },
                    ],
                ),
                widget: Widget::ColorButton,
            },
        );
        add_line(
            &mut items,
            PanelItem::Parameter {
                name: "metallic".to_owned(),
                label: "Metallic".to_owned(),
                default: NodeData::Float(Scalar { bits: 0x0000_0000 }),
                widget: Widget::Slider {
                    min: Scalar { bits: 0x0000_0000 },
                    max: Scalar { bits: 0x3f80_0000 },
                },
            },
        );
        add_line(
            &mut items,
            PanelItem::Parameter {
                name: "roughness".to_owned(),
                label: "Roughness".to_owned(),
                default: NodeData::Float(Scalar { bits: 0x3ecc_cccd }),
                widget: Widget::Slider {
                    min: Scalar { bits: 0x0000_0000 },
                    max: Scalar { bits: 0x3f80_0000 },
                },
            },
        );
        add_line(
            &mut items,
            PanelItem::Parameter {
                name: "opacity".to_owned(),
                label: "Opacity".to_owned(),
                default: NodeData::Float(Scalar { bits: 0x3f80_0000 }),
                widget: Widget::Slider {
                    min: Scalar { bits: 0x0000_0000 },
                    max: Scalar { bits: 0x3f80_0000 },
                },
            },
        );
        add_line(
            &mut items,
            PanelItem::Parameter {
                name: "ior".to_owned(),
                label: "IOR".to_owned(),
                default: NodeData::Float(Scalar { bits: 0x3fc0_0000 }),
                widget: Widget::Drag {
                    speed: Scalar { bits: 0x3c23_d70a },
                    min: Scalar { bits: 0x3f80_0000 },
                    max: Scalar { bits: 0x4040_0000 },
                    suffix: "".to_owned(),
                },
            },
        );
        items
    }
}

} // verus!
