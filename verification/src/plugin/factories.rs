//! The factories that the plugin registers with the editor, one for each
//! kind of node, and the simple node that most of them make.

use vstd::prelude::*;
use vstd::string::*;
use crate::nodes::data::NodeData;
use crate::nodes::interface::{
    add_element, label, panel, ElementView, ParameterChange, ParameterUI, Pos2, UIAction, UIElement,
};
use crate::nodes::metadata::{
    optional_port, required_port, Color32, DataType, MetadataView, NodeMetadata, PanelType,
    PortDefinition,
};
use crate::nodes::naming::{hyphenated, hyphenated_text, random_fields, IdFields};
use crate::plugin::load_stage_node::{hex_numeral, LoadNodeView, USDLoadStageNode};
use crate::plugin::viewport_node::{first_viewport, USDViewport, USDViewportNode};

verus! {

/// Makes `USD_CreateStage` nodes.
#[derive(Debug, Default, Clone, Copy)]
pub struct USDCreateStageFactory;

impl USDCreateStageFactory {
    /// How the `USD_CreateStage` node presents itself to the editor.
    pub fn metadata(&self) -> (m: NodeMetadata)
        ensures
            m@ =~~= (MetadataView {
                node_type: "USD_CreateStage"@,
                display_name: "Create Stage"@,
                category: seq!["USD"@, "Stage"@],
                description: "Create a new USD stage"@,
                color: Some(Color32 { r: 80, g: 150, b: 200 }),
                icon: Some("🎬"@),
                inputs: Seq::empty(),
                outputs: seq![
                    required_port("Stage"@, DataType::String, "Created USD stage"@),
                ],
                tags: Seq::empty(),
                processing_cost: None,
                workspace_compatibility: seq!["3D"@],
                panel_type: None,
            }),
    {
        NodeMetadata::new(
            "USD_CreateStage",
            "Create Stage",
            vec!["USD", "Stage"],
            "Create a new USD stage",
        )
            .with_color(Color32::from_rgb(80, 150, 200))
            .with_icon("🎬")
            .with_outputs(vec![
                PortDefinition::required("Stage", DataType::String)
                    .with_description("Created USD stage"),
            ])
            .with_workspace_compatibility(vec!["3D"])
    }
}

/// Makes `USD_LoadStage` nodes.
#[derive(Debug, Default, Clone, Copy)]
pub struct USDLoadStageFactory;

impl USDLoadStageFactory {
    /// How the `USD_LoadStage` node presents itself to the editor.
    pub fn metadata(&self) -> (m: NodeMetadata)
        ensures
            m@ =~~= (MetadataView {
                node_type: "USD_LoadStage"@,
                display_name: "Load Stage"@,
                category: seq!["USD"@, "Stage"@],
                description: "Load a USD stage from file"@,
                color: Some(Color32 { r: 80, g: 150, b: 200 }),
                icon: Some("📂"@),
                inputs: Seq::empty(),
                outputs: seq![
                    required_port("Stage"@, DataType::String, "Loaded USD stage"@),
                ],
                tags: Seq::empty(),
                processing_cost: None,
                workspace_compatibility: seq!["3D"@],
                panel_type: Some(PanelType::Parameter),
            }),
    {
        NodeMetadata::new(
            "USD_LoadStage",
            "Load Stage",
            vec!["USD", "Stage"],
            "Load a USD stage from file",
        )
            .with_color(Color32::from_rgb(80, 150, 200))
            .with_icon("📂")
            .with_inputs(Vec::new())
            .with_outputs(vec![
                PortDefinition::required("Stage", DataType::String)
                    .with_description("Loaded USD stage"),
            ])
            .with_panel_type(PanelType::Parameter)
            .with_workspace_compatibility(vec!["3D"])
    }
}

/// Makes `USD_SaveStage` nodes.
#[derive(Debug, Default, Clone, Copy)]
pub struct USDSaveStageFactory;

impl USDSaveStageFactory {
    /// How the `USD_SaveStage` node presents itself to the editor.
    pub fn metadata(&self) -> (m: NodeMetadata)
        ensures
            m@ =~~= (MetadataView {
                node_type: "USD_SaveStage"@,
                display_name: "Save Stage"@,
                category: seq!["USD"@, "Stage"@],
                description: "Save USD stage to file"@,
                color: Some(Color32 { r: 80, g: 150, b: 200 }),
                icon: Some("💾"@),
                inputs: seq![
                    required_port("Stage"@, DataType::String, "USD stage to save"@),
                    optional_port("File Path"@, DataType::String, "Output file path"@),
                ],
                outputs: seq![
                    required_port("Success"@, DataType::Boolean, "Save operation success"@),
                ],
                tags: Seq::empty(),
                processing_cost: None,
                workspace_compatibility: seq!["3D"@],
                panel_type: None,
            }),
    {
        NodeMetadata::new(
            "USD_SaveStage",
            "Save Stage",
            vec!["USD", "Stage"],
            "Save USD stage to file",
        )
            .with_color(Color32::from_rgb(80, 150, 200))
            .with_icon("💾")
            .with_inputs(vec![
                PortDefinition::required("Stage", DataType::String)
                    .with_description("USD stage to save"),
                PortDefinition::optional("File Path", DataType::String)
                    .with_description("Output file path"),
            ])
            .with_outputs(vec![
                PortDefinition::required("Success", DataType::Boolean)
                    .with_description("Save operation success"),
            ])
            .with_workspace_compatibility(vec!["3D"])
    }
}

/// Makes `USD_Mesh` nodes.
#[derive(Debug, Default, Clone, Copy)]
pub struct USDMeshFactory;

impl USDMeshFactory {
    /// How the `USD_Mesh` node presents itself to the editor.
    pub fn metadata(&self) -> (m: NodeMetadata)
        ensures
            m@ =~~= (MetadataView {
                node_type: "USD_Mesh"@,
                display_name: "Mesh"@,
                category: seq!["USD"@, "Geometry"@],
                description: "Create USD mesh geometry"@,
                color: Some(Color32 { r: 100, g: 180, b: 100 }),
                icon: Some("🔺"@),
                inputs: seq![
                    required_port("Stage"@, DataType::String, "USD stage"@),
                ],
                outputs: seq![
                    required_port("Mesh"@, DataType::String, "USD mesh prim"@),
                ],
                tags: Seq::empty(),
                processing_cost: None,
                workspace_compatibility: seq!["3D"@],
                panel_type: None,
            }),
    {
        NodeMetadata::new(
            "USD_Mesh",
            "Mesh",
            vec!["USD", "Geometry"],
            "Create USD mesh geometry",
        )
            .with_color(Color32::from_rgb(100, 180, 100))
            .with_icon("🔺")
            .with_inputs(vec![
                PortDefinition::required("Stage", DataType::String).with_description("USD stage"),
            ])
            .with_outputs(vec![
                PortDefinition::required("Mesh", DataType::String)
                    .with_description("USD mesh prim"),
            ])
            .with_workspace_compatibility(vec!["3D"])
    }
}

/// Makes `USD_Sphere` nodes.
#[derive(Debug, Default, Clone, Copy)]
pub struct USDSphereFactory;

impl USDSphereFactory {
    /// How the `USD_Sphere` node presents itself to the editor.
    pub fn metadata(&self) -> (m: NodeMetadata)
        ensures
            m@ =~~= (MetadataView {
                node_type: "USD_Sphere"@,
                display_name: "Sphere"@,
                category: seq!["USD"@, "Geometry"@],
                description: "Create USD sphere primitive"@,
                color: Some(Color32 { r: 100, g: 180, b: 100 }),
                icon: Some("🔴"@),
                inputs: seq![
                    required_port("Stage"@, DataType::String, "USD stage"@),
                ],
                outputs: seq![
                    required_port("Sphere"@, DataType::String, "USD sphere prim"@),
                ],
                tags: Seq::empty(),
                processing_cost: None,
                workspace_compatibility: seq!["3D"@],
                panel_type: None,
            }),
    {
        NodeMetadata::new(
            "USD_Sphere",
            "Sphere",
            vec!["USD", "Geometry"],
            "Create USD sphere primitive",
        )
            .with_color(Color32::from_rgb(100, 180, 100))
            .with_icon("🔴")
            .with_inputs(vec![
                PortDefinition::required("Stage", DataType::String).with_description("USD stage"),
            ])
            .with_outputs(vec![
                PortDefinition::required("Sphere", DataType::String)
                    .with_description("USD sphere prim"),
            ])
            .with_workspace_compatibility(vec!["3D"])
    }
}

/// Makes `USD_Cube` nodes.
#[derive(Debug, Default, Clone, Copy)]
pub struct USDCubeFactory;

impl USDCubeFactory {
    /// How the `USD_Cube` node presents itself to the editor.
    pub fn metadata(&self) -> (m: NodeMetadata)
        ensures
            m@ =~~= (MetadataView {
                node_type: "USD_Cube"@,
                display_name: "Cube"@,
                category: seq!["USD"@, "Geometry"@],
                description: "Create USD cube primitive"@,
                color: Some(Color32 { r: 100, g: 180, b: 100 }),
                icon: Some("🔳"@),
                inputs: seq![
                    required_port("Stage"@, DataType::String, "USD stage"@),
                ],
                outputs: seq![
                    required_port("Cube"@, DataType::String, "USD cube prim"@),
                ],
                tags: Seq::empty(),
                processing_cost: None,
                workspace_compatibility: seq!["3D"@],
                panel_type: None,
            }),
    {
        NodeMetadata::new(
            "USD_Cube",
            "Cube",
            vec!["USD", "Geometry"],
            "Create USD cube primitive",
        )
            .with_color(Color32::from_rgb(100, 180, 100))
            .with_icon("🔳")
            .with_inputs(vec![
                PortDefinition::required("Stage", DataType::String).with_description("USD stage"),
            ])
            .with_outputs(vec![
                PortDefinition::required("Cube", DataType::String)
                    .with_description("USD cube prim"),
            ])
            .with_workspace_compatibility(vec!["3D"])
    }
}

/// Makes `USD_Cylinder` nodes.
#[derive(Debug, Default, Clone, Copy)]
pub struct USDCylinderFactory;

impl USDCylinderFactory {
    /// How the `USD_Cylinder` node presents itself to the editor.
    pub fn metadata(&self) -> (m: NodeMetadata)
        ensures
            m@ =~~= (MetadataView {
                node_type: "USD_Cylinder"@,
                display_name: "Cylinder"@,
                category: seq!["USD"@, "Geometry"@],
                description: "Create USD cylinder primitive"@,
                color: Some(Color32 { r: 100, g: 180, b: 100 }),
                icon: Some("🛢"@),
                inputs: seq![
                    required_port("Stage"@, DataType::String, "USD stage"@),
                ],
                outputs: seq![
                    required_port("Cylinder"@, DataType::String, "USD cylinder prim"@),
                ],
                tags: Seq::empty(),
                processing_cost: None,
                workspace_compatibility: seq!["3D"@],
                panel_type: None,
            }),
    {
        NodeMetadata::new(
            "USD_Cylinder",
            "Cylinder",
            vec!["USD", "Geometry"],
            "Create USD cylinder primitive",
        )
            .with_color(Color32::from_rgb(100, 180, 100))
            .with_icon("🛢")
            .with_inputs(vec![
                PortDefinition::required("Stage", DataType::String).with_description("USD stage"),
            ])
            .with_outputs(vec![
                PortDefinition::required("Cylinder", DataType::String)
                    .with_description("USD cylinder prim"),
            ])
            .with_workspace_compatibility(vec!["3D"])
    }
}

/// Makes `USD_Xform` nodes.
#[derive(Debug, Default, Clone, Copy)]
pub struct USDXformFactory;

impl USDXformFactory {
    /// How the `USD_Xform` node presents itself to the editor.
    pub fn metadata(&self) -> (m: NodeMetadata)
        ensures
            m@ =~~= (MetadataView {
                node_type: "USD_Xform"@,
                display_name: "Xform"@,
                category: seq!["USD"@, "Transform"@],
                description: "Apply transformation to USD prim"@,
                color: Some(Color32 { r: 150, g: 120, b: 200 }),
                icon: Some("🔄"@),
                inputs: seq![
                    required_port("Stage"@, DataType::String, "USD stage"@),
                ],
                outputs: seq![
                    required_port("Xform"@, DataType::String, "USD Xform prim"@),
                ],
                tags: Seq::empty(),
                processing_cost: None,
                workspace_compatibility: seq!["3D"@],
                panel_type: None,
            }),
    {
        NodeMetadata::new(
            "USD_Xform",
            "Xform",
            vec!["USD", "Transform"],
            "Apply transformation to USD prim",
        )
            .with_color(Color32::from_rgb(150, 120, 200))
            .with_icon("🔄")
            .with_inputs(vec![
                PortDefinition::required("Stage", DataType::String).with_description("USD stage"),
            ])
            .with_outputs(vec![
                PortDefinition::required("Xform", DataType::String)
                    .with_description("USD Xform prim"),
            ])
            .with_workspace_compatibility(vec!["3D"])
    }
}

/// Makes `USD_Translate` nodes.
#[derive(Debug, Default, Clone, Copy)]
pub struct USDTranslateFactory;

impl USDTranslateFactory {
    /// How the `USD_Translate` node presents itself to the editor.
    pub fn metadata(&self) -> (m: NodeMetadata)
        ensures
            m@ =~~= (MetadataView {
                node_type: "USD_Translate"@,
                display_name: "Translate"@,
                category: seq!["USD"@, "Transform"@],
                description: "Translate USD prim"@,
                color: Some(Color32 { r: 150, g: 120, b: 200 }),
                icon: Some("📍"@),
                inputs: seq![
                    required_port("Stage"@, DataType::String, "USD stage"@),
                ],
                outputs: seq![
                    required_port("Translate"@, DataType::String, "USD translate transform"@),
                ],
                tags: Seq::empty(),
                processing_cost: None,
                workspace_compatibility: seq!["3D"@],
                panel_type: None,
            }),
    {
        NodeMetadata::new(
            "USD_Translate",
            "Translate",
            vec!["USD", "Transform"],
            "Translate USD prim",
        )
            .with_color(Color32::from_rgb(150, 120, 200))
            .with_icon("📍")
            .with_inputs(vec![
                PortDefinition::required("Stage", DataType::String).with_description("USD stage"),
            ])
            .with_outputs(vec![
                PortDefinition::required("Translate", DataType::String)
                    .with_description("USD translate transform"),
            ])
            .with_workspace_compatibility(vec!["3D"])
    }
}

/// Makes `USD_Rotate` nodes.
#[derive(Debug, Default, Clone, Copy)]
pub struct USDRotateFactory;

impl USDRotateFactory {
    /// How the `USD_Rotate` node presents itself to the editor.
    pub fn metadata(&self) -> (m: NodeMetadata)
        ensures
            m@ =~~= (MetadataView {
                node_type: "USD_Rotate"@,
                display_name: "Rotate"@,
                category: seq!["USD"@, "Transform"@],
                description: "Rotate USD prim"@,
                color: Some(Color32 { r: 150, g: 120, b: 200 }),
                icon: Some("🔁"@),
                inputs: seq![
                    required_port("Stage"@, DataType::String, "USD stage"@),
                ],
                outputs: seq![
                    required_port("Rotate"@, DataType::String, "USD rotate transform"@),
                ],
                tags: Seq::empty(),
                processing_cost: None,
                workspace_compatibility: seq!["3D"@],
                panel_type: None,
            }),
    {
        NodeMetadata::new(
            "USD_Rotate",
            "Rotate",
            vec!["USD", "Transform"],
            "Rotate USD prim",
        )
            .with_color(Color32::from_rgb(150, 120, 200))
            .with_icon("🔁")
            .with_inputs(vec![
                PortDefinition::required("Stage", DataType::String).with_description("USD stage"),
            ])
            .with_outputs(vec![
                PortDefinition::required("Rotate", DataType::String)
                    .with_description("USD rotate transform"),
            ])
            .with_workspace_compatibility(vec!["3D"])
    }
}

/// Makes `USD_Scale` nodes.
#[derive(Debug, Default, Clone, Copy)]
pub struct USDScaleFactory;

impl USDScaleFactory {
    /// How the `USD_Scale` node presents itself to the editor.
    pub fn metadata(&self) -> (m: NodeMetadata)
        ensures
            m@ =~~= (MetadataView {
                node_type: "USD_Scale"@,
                display_name: "Scale"@,
                category: seq!["USD"@, "Transform"@],
                description: "Scale USD prim"@,
                color: Some(Color32 { r: 150, g: 120, b: 200 }),
                icon: Some("📏"@),
                inputs: seq![
                    required_port("Stage"@, DataType::String, "USD stage"@),
                ],
                outputs: seq![
                    required_port("Scale"@, DataType::String, "USD scale transform"@),
                ],
                tags: Seq::empty(),
                processing_cost: None,
                workspace_compatibility: seq!["3D"@],
                panel_type: None,
            }),
    {
        NodeMetadata::new(
            "USD_Scale",
            "Scale",
            vec!["USD", "Transform"],
            "Scale USD prim",
        )
            .with_color(Color32::from_rgb(150, 120, 200))
            .with_icon("📏")
            .with_inputs(vec![
                PortDefinition::required("Stage", DataType::String).with_description("USD stage"),
            ])
            .with_outputs(vec![
                PortDefinition::required("Scale", DataType::String)
                    .with_description("USD scale transform"),
            ])
            .with_workspace_compatibility(vec!["3D"])
    }
}

/// Makes `USD_DistantLight` nodes.
#[derive(Debug, Default, Clone, Copy)]
pub struct USDDistantLightFactory;

impl USDDistantLightFactory {
    /// How the `USD_DistantLight` node presents itself to the editor.
    pub fn metadata(&self) -> (m: NodeMetadata)
        ensures
            m@ =~~= (MetadataView {
                node_type: "USD_DistantLight"@,
                display_name: "Distant Light"@,
                category: seq!["USD"@, "Lighting"@],
                description: "Create distant (directional) light"@,
                color: Some(Color32 { r: 200, g: 200, b: 100 }),
                icon: Some("☀️"@),
                inputs: seq![
                    required_port("Stage"@, DataType::String, "USD stage"@),
                ],
                outputs: seq![
                    required_port("Light"@, DataType::String, "USD distant light"@),
                ],
                tags: Seq::empty(),
                processing_cost: None,
                workspace_compatibility: seq!["3D"@],
                panel_type: None,
            }),
    {
        NodeMetadata::new(
            "USD_DistantLight",
            "Distant Light",
            vec!["USD", "Lighting"],
            "Create distant (directional) light",
        )
            .with_color(Color32::from_rgb(200, 200, 100))
            .with_icon("☀️")
            .with_inputs(vec![
                PortDefinition::required("Stage", DataType::String).with_description("USD stage"),
            ])
            .with_outputs(vec![
                PortDefinition::required("Light", DataType::String)
                    .with_description("USD distant light"),
            ])
            .with_workspace_compatibility(vec!["3D"])
    }
}

/// Makes `USD_SphereLight` nodes.
#[derive(Debug, Default, Clone, Copy)]
pub struct USDSphereLightFactory;

impl USDSphereLightFactory {
    /// How the `USD_SphereLight` node presents itself to the editor.
    pub fn metadata(&self) -> (m: NodeMetadata)
        ensures
            m@ =~~= (MetadataView {
                node_type: "USD_SphereLight"@,
                display_name: "Sphere Light"@,
                category: seq!["USD"@, "Lighting"@],
                description: "Create sphere area light"@,
                color: Some(Color32 { r: 200, g: 200, b: 100 }),
                icon: Some("💡"@),
                inputs: seq![
                    required_port("Stage"@, DataType::String, "USD stage"@),
                ],
                outputs: seq![
                    required_port("Light"@, DataType::String, "USD sphere light"@),
                ],
                tags: Seq::empty(),
                processing_cost: None,
                workspace_compatibility: seq!["3D"@],
                panel_type: None,
            }),
    {
        NodeMetadata::new(
            "USD_SphereLight",
            "Sphere Light",
            vec!["USD", "Lighting"],
            "Create sphere area light",
        )
            .with_color(Color32::from_rgb(200, 200, 100))
            .with_icon("💡")
            .with_inputs(vec![
                PortDefinition::required("Stage", DataType::String).with_description("USD stage"),
            ])
            .with_outputs(vec![
                PortDefinition::required("Light", DataType::String)
                    .with_description("USD sphere light"),
            ])
            .with_workspace_compatibility(vec!["3D"])
    }
}

/// Makes `USD_DomeLight` nodes.
#[derive(Debug, Default, Clone, Copy)]
pub struct USDDomeLightFactory;

impl USDDomeLightFactory {
    /// How the `USD_DomeLight` node presents itself to the editor.
    pub fn metadata(&self) -> (m: NodeMetadata)
        ensures
            m@ =~~= (MetadataView {
                node_type: "USD_DomeLight"@,
                display_name: "Dome Light"@,
                category: seq!["USD"@, "Lighting"@],
                description: "Create dome/environment light"@,
                color: Some(Color32 { r: 200, g: 200, b: 100 }),
                icon: Some("🌐"@),
                inputs: seq![
                    required_port("Stage"@, DataType::String, "USD stage"@),
                ],
                outputs: seq![
                    required_port("Light"@, DataType::String, "USD dome light"@),
                ],
                tags: Seq::empty(),
                processing_cost: None,
                workspace_compatibility: seq!["3D"@],
                panel_type: None,
            }),
    {
        NodeMetadata::new(
            "USD_DomeLight",
            "Dome Light",
            vec!["USD", "Lighting"],
            "Create dome/environment light",
        )
            .with_color(Color32::from_rgb(200, 200, 100))
            .with_icon("🌐")
            .with_inputs(vec![
                PortDefinition::required("Stage", DataType::String).with_description("USD stage"),
            ])
            .with_outputs(vec![
                PortDefinition::required("Light", DataType::String)
                    .with_description("USD dome light"),
            ])
            .with_workspace_compatibility(vec!["3D"])
    }
}

/// Makes `USD_Material` nodes.
#[derive(Debug, Default, Clone, Copy)]
pub struct USDMaterialFactory;

impl USDMaterialFactory {
    /// How the `USD_Material` node presents itself to the editor.
    pub fn metadata(&self) -> (m: NodeMetadata)
        ensures
            m@ =~~= (MetadataView {
                node_type: "USD_Material"@,
                display_name: "Material"@,
                category: seq!["USD"@, "Shading"@],
                description: "Create USD material"@,
                color: Some(Color32 { r: 180, g: 100, b: 180 }),
                icon: Some("🎨"@),
                inputs: seq![
                    required_port("Stage"@, DataType::String, "USD stage"@),
                ],
                outputs: seq![
                    required_port("Material"@, DataType::String, "USD material"@),
                ],
                tags: Seq::empty(),
                processing_cost: None,
                workspace_compatibility: seq!["3D"@],
                panel_type: None,
            }),
    {
        NodeMetadata::new(
            "USD_Material",
            "Material",
            vec!["USD", "Shading"],
            "Create USD material",
        )
            .with_color(Color32::from_rgb(180, 100, 180))
            .with_icon("🎨")
            .with_inputs(vec![
                PortDefinition::required("Stage", DataType::String).with_description("USD stage"),
            ])
            .with_outputs(vec![
                PortDefinition::required("Material", DataType::String)
                    .with_description("USD material"),
            ])
            .with_workspace_compatibility(vec!["3D"])
    }
}

/// Makes `USD_Shader` nodes.
#[derive(Debug, Default, Clone, Copy)]
pub struct USDShaderFactory;

impl USDShaderFactory {
    /// How the `USD_Shader` node presents itself to the editor.
    pub fn metadata(&self) -> (m: NodeMetadata)
        ensures
            m@ =~~= (MetadataView {
                node_type: "USD_Shader"@,
                display_name: "Shader"@,
                category: seq!["USD"@, "Shading"@],
                description: "Create USD shader"@,
                color: Some(Color32 { r: 180, g: 100, b: 180 }),
                icon: Some("🔮"@),
                inputs: seq![
                    required_port("Stage"@, DataType::String, "USD stage"@),
                ],
                outputs: seq![
                    required_port("Shader"@, DataType::String, "USD shader"@),
                ],
                tags: Seq::empty(),
                processing_cost: None,
                workspace_compatibility: seq!["3D"@],
                panel_type: None,
            }),
    {
        NodeMetadata::new(
            "USD_Shader",
            "Shader",
            vec!["USD", "Shading"],
            "Create USD shader",
        )
            .with_color(Color32::from_rgb(180, 100, 180))
            .with_icon("🔮")
            .with_inputs(vec![
                PortDefinition::required("Stage", DataType::String).with_description("USD stage"),
            ])
            .with_outputs(vec![
                PortDefinition::required("Shader", DataType::String).with_description("USD shader"),
            ])
            .with_workspace_compatibility(vec!["3D"])
    }
}

/// Makes `USD_Texture` nodes.
#[derive(Debug, Default, Clone, Copy)]
pub struct USDTextureFactory;

impl USDTextureFactory {
    /// How the `USD_Texture` node presents itself to the editor.
    pub fn metadata(&self) -> (m: NodeMetadata)
        ensures
            m@ =~~= (MetadataView {
                node_type: "USD_Texture"@,
                display_name: "Texture"@,
                category: seq!["USD"@, "Shading"@],
                description: "Create USD texture"@,
                color: Some(Color32 { r: 180, g: 100, b: 180 }),
                icon: Some("🖼️"@),
                inputs: seq![
                    required_port("Stage"@, DataType::String, "USD stage"@),
                ],
                outputs: seq![
                    required_port("Texture"@, DataType::String, "USD texture"@),
                ],
                tags: Seq::empty(),
                processing_cost: None,
                workspace_compatibility: seq!["3D"@],
                panel_type: None,
            }),
    {
        NodeMetadata::new(
            "USD_Texture",
            "Texture",
            vec!["USD", "Shading"],
            "Create USD texture",
        )
            .with_color(Color32::from_rgb(180, 100, 180))
            .with_icon("🖼️")
            .with_inputs(vec![
                PortDefinition::required("Stage", DataType::String).with_description("USD stage"),
            ])
            .with_outputs(vec![
                PortDefinition::required("Texture", DataType::String)
                    .with_description("USD texture"),
            ])
            .with_workspace_compatibility(vec!["3D"])
    }
}

/// Makes `USD_StageInspector` nodes.
#[derive(Debug, Default, Clone, Copy)]
pub struct USDStageInspectorFactory;

impl USDStageInspectorFactory {
    /// How the `USD_StageInspector` node presents itself to the editor.
    pub fn metadata(&self) -> (m: NodeMetadata)
        ensures
            m@ =~~= (MetadataView {
                node_type: "USD_StageInspector"@,
                display_name: "Stage Inspector"@,
                category: seq!["USD"@, "Viewport"@],
                description: "Inspect USD stage hierarchy"@,
                color: Some(Color32 { r: 120, g: 120, b: 120 }),
                icon: Some("🔍"@),
                inputs: seq![
                    required_port("Stage"@, DataType::String, "USD stage to inspect"@),
                ],
                outputs: seq![
                    required_port("Info"@, DataType::String, "Stage information"@),
                ],
                tags: Seq::empty(),
                processing_cost: None,
                workspace_compatibility: seq!["3D"@],
                panel_type: None,
            }),
    {
        NodeMetadata::new(
            "USD_StageInspector",
            "Stage Inspector",
            vec!["USD", "Viewport"],
            "Inspect USD stage hierarchy",
        )
            .with_color(Color32::from_rgb(120, 120, 120))
            .with_icon("🔍")
            .with_inputs(vec![
                PortDefinition::required("Stage", DataType::String)
                    .with_description("USD stage to inspect"),
            ])
            .with_outputs(vec![
                PortDefinition::required("Info", DataType::String)
                    .with_description("Stage information"),
            ])
            .with_workspace_compatibility(vec!["3D"])
    }
}

/// A node without parameters of its own: it shows what it is and hands
/// nothing on.
#[derive(Debug, Clone)]
pub struct SimpleUSDNode {
    pub id: String,
    pub position: Pos2,
    pub node_type: String,
    pub display_name: String,
}

/// The panel of a simple node.
pub open spec fn simple_panel(display_name: Seq<char>, node_type: Seq<char>) -> Seq<ElementView> {
    seq![
        ElementView::Label("🎭 "@ + display_name),
        ElementView::Separator,
        ElementView::Label("Node Type: "@ + node_type),
        ElementView::Label("Parameters will be implemented soon..."@),
    ]
}

impl SimpleUSDNode {
    /// A node of kind `node_type` at `position`, known by the text form of
    /// the identifier `fields`.
    pub fn with_id(fields: &IdFields, node_type: &str, display_name: &str, position: Pos2) -> (node:
        SimpleUSDNode)
        ensures
            node.id@ == hyphenated_text(*fields),
            node.position == position,
            node.node_type@ == node_type@,
            node.display_name@ == display_name@,
    {
        SimpleUSDNode {
            id: hyphenated(fields),
            position,
            node_type: node_type.to_owned(),
            display_name: display_name.to_owned(),
        }
    }

    /// A node of kind `node_type` at `position`, with a random identifier.
    pub fn new(node_type: &str, display_name: &str, position: Pos2) -> (node: SimpleUSDNode)
        ensures
            exists|fields: IdFields| node.id@ == #[trigger] hyphenated_text(fields),
            node.position == position,
            node.node_type@ == node_type@,
            node.display_name@ == display_name@,
    {
        let fields = random_fields();
        Self::with_id(&fields, node_type, display_name, position)
    }

    /// The identifier of the node.
    pub fn id(&self) -> (id: String)
        ensures
            id@ == self.id@,
    {
        self.id.clone()
    }

    /// Where the node stands in the graph.
    pub fn position(&self) -> (p: Pos2)
        ensures
            p == self.position,
    {
        self.position
    }

    /// Moves the node.
    pub fn set_position(&mut self, position: Pos2)
        ensures
            final(self).position == position,
            final(self).id == old(self).id,
            final(self).node_type == old(self).node_type,
            final(self).display_name == old(self).display_name,
    {
        self.position = position;
    }

    /// The panel of the node: its name, its kind and a note.
    pub fn get_parameter_ui(&self) -> (ui: ParameterUI)
        ensures
            panel(ui.elements@) == simple_panel(self.display_name@, self.node_type@),
    {
        let mut elements: Vec<UIElement> = Vec::new();
        let mut title = "🎭 ".to_owned();
        title.append(self.display_name.as_str());
        let mut kind = "Node Type: ".to_owned();
        kind.append(self.node_type.as_str());
        add_element(&mut elements, label(title.as_str()));
        add_element(&mut elements, UIElement::Separator);
        add_element(&mut elements, label(kind.as_str()));
        add_element(&mut elements, label("Parameters will be implemented soon..."));
        assert(panel(elements@) =~= simple_panel(self.display_name@, self.node_type@));
        ParameterUI { elements }
    }

    /// Takes an action of the user. A simple node has nothing to change.
    pub fn handle_ui_action(&mut self, action: UIAction) -> (changes: Vec<ParameterChange>)
        ensures
            changes@.len() == 0,
            *final(self) == *old(self),
    {
        Vec::new()
    }

    /// The value of the parameter `name`. A simple node has no parameters.
    pub fn get_parameter(&self, name: &str) -> (r: Option<NodeData>)
        ensures
            r is None,
    {
        None
    }

    /// Sets the parameter `name`. A simple node has no parameters.
    pub fn set_parameter(&mut self, name: &str, value: NodeData)
        ensures
            *final(self) == *old(self),
    {
    }

    /// Runs the node. A simple node hands nothing on.
    pub fn process(&mut self, inputs: &Vec<(String, NodeData)>) -> (outputs: Vec<(String, NodeData)>)
        ensures
            outputs@.len() == 0,
            *final(self) == *old(self),
    {
        Vec::new()
    }
}

impl USDCreateStageFactory {
    /// Makes a `USD_CreateStage` node at `position`.
    pub fn create_node(&self, position: Pos2) -> (node: SimpleUSDNode)
        ensures
            exists|fields: IdFields| node.id@ == #[trigger] hyphenated_text(fields),
            node.position == position,
            node.node_type@ == "USD_CreateStage"@,
            node.display_name@ == "Create Stage"@,
    {
        SimpleUSDNode::new("USD_CreateStage", "Create Stage", position)
    }
}

impl USDSaveStageFactory {
    /// Makes a `USD_SaveStage` node at `position`.
    pub fn create_node(&self, position: Pos2) -> (node: SimpleUSDNode)
        ensures
            exists|fields: IdFields| node.id@ == #[trigger] hyphenated_text(fields),
            node.position == position,
            node.node_type@ == "USD_SaveStage"@,
            node.display_name@ == "Save Stage"@,
    {
        SimpleUSDNode::new("USD_SaveStage", "Save Stage", position)
    }
}

impl USDMeshFactory {
    /// Makes a `USD_Mesh` node at `position`.
    pub fn create_node(&self, position: Pos2) -> (node: SimpleUSDNode)
        ensures
            exists|fields: IdFields| node.id@ == #[trigger] hyphenated_text(fields),
            node.position == position,
            node.node_type@ == "USD_Mesh"@,
            node.display_name@ == "Mesh"@,
    {
        SimpleUSDNode::new("USD_Mesh", "Mesh", position)
    }
}

impl USDSphereFactory {
    /// Makes a `USD_Sphere` node at `position`.
    pub fn create_node(&self, position: Pos2) -> (node: SimpleUSDNode)
        ensures
            exists|fields: IdFields| node.id@ == #[trigger] hyphenated_text(fields),
            node.position == position,
            node.node_type@ == "USD_Sphere"@,
            node.display_name@ == "Sphere"@,
    {
        SimpleUSDNode::new("USD_Sphere", "Sphere", position)
    }
}

impl USDCubeFactory {
    /// Makes a `USD_Cube` node at `position`.
    pub fn create_node(&self, position: Pos2) -> (node: SimpleUSDNode)
        ensures
            exists|fields: IdFields| node.id@ == #[trigger] hyphenated_text(fields),
            node.position == position,
            node.node_type@ == "USD_Cube"@,
            node.display_name@ == "Cube"@,
    {
        SimpleUSDNode::new("USD_Cube", "Cube", position)
    }
}

impl USDCylinderFactory {
    /// Makes a `USD_Cylinder` node at `position`.
    pub fn create_node(&self, position: Pos2) -> (node: SimpleUSDNode)
        ensures
            exists|fields: IdFields| node.id@ == #[trigger] hyphenated_text(fields),
            node.position == position,
            node.node_type@ == "USD_Cylinder"@,
            node.display_name@ == "Cylinder"@,
    {
        SimpleUSDNode::new("USD_Cylinder", "Cylinder", position)
    }
}

impl USDXformFactory {
    /// Makes a `USD_Xform` node at `position`.
    pub fn create_node(&self, position: Pos2) -> (node: SimpleUSDNode)
        ensures
            exists|fields: IdFields| node.id@ == #[trigger] hyphenated_text(fields),
            node.position == position,
            node.node_type@ == "USD_Xform"@,
            node.display_name@ == "Xform"@,
    {
        SimpleUSDNode::new("USD_Xform", "Xform", position)
    }
}

impl USDTranslateFactory {
    /// Makes a `USD_Translate` node at `position`.
    pub fn create_node(&self, position: Pos2) -> (node: SimpleUSDNode)
        ensures
            exists|fields: IdFields| node.id@ == #[trigger] hyphenated_text(fields),
            node.position == position,
            node.node_type@ == "USD_Translate"@,
            node.display_name@ == "Translate"@,
    {
        SimpleUSDNode::new("USD_Translate", "Translate", position)
    }
}

impl USDRotateFactory {
    /// Makes a `USD_Rotate` node at `position`.
    pub fn create_node(&self, position: Pos2) -> (node: SimpleUSDNode)
        ensures
            exists|fields: IdFields| node.id@ == #[trigger] hyphenated_text(fields),
            node.position == position,
            node.node_type@ == "USD_Rotate"@,
            node.display_name@ == "Rotate"@,
    {
        SimpleUSDNode::new("USD_Rotate", "Rotate", position)
    }
}

impl USDScaleFactory {
    /// Makes a `USD_Scale` node at `position`.
    pub fn create_node(&self, position: Pos2) -> (node: SimpleUSDNode)
        ensures
            exists|fields: IdFields| node.id@ == #[trigger] hyphenated_text(fields),
            node.position == position,
            node.node_type@ == "USD_Scale"@,
            node.display_name@ == "Scale"@,
    {
        SimpleUSDNode::new("USD_Scale", "Scale", position)
    }
}

impl USDDistantLightFactory {
    /// Makes a `USD_DistantLight` node at `position`.
    pub fn create_node(&self, position: Pos2) -> (node: SimpleUSDNode)
        ensures
            exists|fields: IdFields| node.id@ == #[trigger] hyphenated_text(fields),
            node.position == position,
            node.node_type@ == "USD_DistantLight"@,
            node.display_name@ == "Distant Light"@,
    {
        SimpleUSDNode::new("USD_DistantLight", "Distant Light", position)
    }
}

impl USDSphereLightFactory {
    /// Makes a `USD_SphereLight` node at `position`.
    pub fn create_node(&self, position: Pos2) -> (node: SimpleUSDNode)
        ensures
            exists|fields: IdFields| node.id@ == #[trigger] hyphenated_text(fields),
            node.position == position,
            node.node_type@ == "USD_SphereLight"@,
            node.display_name@ == "Sphere Light"@,
    {
        SimpleUSDNode::new("USD_SphereLight", "Sphere Light", position)
    }
}

impl USDDomeLightFactory {
    /// Makes a `USD_DomeLight` node at `position`.
    pub fn create_node(&self, position: Pos2) -> (node: SimpleUSDNode)
        ensures
            exists|fields: IdFields| node.id@ == #[trigger] hyphenated_text(fields),
            node.position == position,
            node.node_type@ == "USD_DomeLight"@,
            node.display_name@ == "Dome Light"@,
    {
        SimpleUSDNode::new("USD_DomeLight", "Dome Light", position)
    }
}

impl USDMaterialFactory {
    /// Makes a `USD_Material` node at `position`.
    pub fn create_node(&self, position: Pos2) -> (node: SimpleUSDNode)
        ensures
            exists|fields: IdFields| node.id@ == #[trigger] hyphenated_text(fields),
            node.position == position,
            node.node_type@ == "USD_Material"@,
            node.display_name@ == "Material"@,
    {
        SimpleUSDNode::new("USD_Material", "Material", position)
    }
}

impl USDShaderFactory {
    /// Makes a `USD_Shader` node at `position`.
    pub fn create_node(&self, position: Pos2) -> (node: SimpleUSDNode)
        ensures
            exists|fields: IdFields| node.id@ == #[trigger] hyphenated_text(fields),
            node.position == position,
            node.node_type@ == "USD_Shader"@,
            node.display_name@ == "Shader"@,
    {
        SimpleUSDNode::new("USD_Shader", "Shader", position)
    }
}

impl USDTextureFactory {
    /// Makes a `USD_Texture` node at `position`.
    pub fn create_node(&self, position: Pos2) -> (node: SimpleUSDNode)
        ensures
            exists|fields: IdFields| node.id@ == #[trigger] hyphenated_text(fields),
            node.position == position,
            node.node_type@ == "USD_Texture"@,
            node.display_name@ == "Texture"@,
    {
        SimpleUSDNode::new("USD_Texture", "Texture", position)
    }
}

impl USDStageInspectorFactory {
    /// Makes a `USD_StageInspector` node at `position`.
    pub fn create_node(&self, position: Pos2) -> (node: SimpleUSDNode)
        ensures
            exists|fields: IdFields| node.id@ == #[trigger] hyphenated_text(fields),
            node.position == position,
            node.node_type@ == "USD_StageInspector"@,
            node.display_name@ == "Stage Inspector"@,
    {
        SimpleUSDNode::new("USD_StageInspector", "Stage Inspector", position)
    }
}

impl USDLoadStageFactory {
    /// Makes a load node at `position`. `stamp` makes its identifier:
    /// callers pass the time in nanoseconds.
    pub fn create_node(&self, position: Pos2, stamp: u128) -> (node: USDLoadStageNode)
        ensures
            node@ == (LoadNodeView {
                id: "usd_load_stage_"@ + hex_numeral(stamp as nat),
                position,
                file_path: Seq::empty(),
                auto_reload: false,
                load_payloads: true,
            }),
    {
        USDLoadStageNode::new(position, stamp)
    }
}

impl USDViewport {
    /// Makes a viewport node at `position`, with a random identifier and a
    /// viewport in its first state.
    pub fn create_node(&self, position: Pos2) -> (node: USDViewportNode)
        ensures
            exists|fields: IdFields| node.id@ == #[trigger] hyphenated_text(fields),
            node.position == position,
            node.viewport_data@ == first_viewport(),
    {
        let fields = random_fields();
        USDViewportNode { id: hyphenated(&fields), position, viewport_data: USDViewport::default() }
    }
}

/// What the plugin says of itself.
#[derive(Debug, Clone)]
pub struct PluginInfo {
    pub name: String,
    pub version: String,
    pub author: String,
    pub description: String,
    pub compatible_version: String,
}

/// The plugin.
#[derive(Debug, Default, Clone, Copy)]
pub struct USDPlugin;

/// The kinds of node that the plugin registers, in the order in which it
/// registers them.
pub open spec fn registered_types() -> Seq<Seq<char>> {
    seq![
        "USD_Viewport"@,
        "USD_CreateStage"@,
        "USD_LoadStage"@,
        "USD_SaveStage"@,
        "USD_Mesh"@,
        "USD_Sphere"@,
        "USD_Cube"@,
        "USD_Cylinder"@,
        "USD_Xform"@,
        "USD_Translate"@,
        "USD_Rotate"@,
        "USD_Scale"@,
        "USD_DistantLight"@,
        "USD_SphereLight"@,
        "USD_DomeLight"@,
        "USD_Material"@,
        "USD_Shader"@,
        "USD_Texture"@,
        "USD_StageInspector"@,
    ]
}

/// The type names of a list of presentations, in order.
pub open spec fn type_names(registry: Seq<NodeMetadata>) -> Seq<Seq<char>> {
    Seq::new(registry.len(), |i: int| registry[i].node_type@)
}

fn register(registry: &mut Vec<NodeMetadata>, metadata: NodeMetadata)
    ensures
        type_names(final(registry)@) == type_names(old(registry)@).push(metadata.node_type@),
{
    registry.push(metadata);
    assert(type_names(registry@) =~= type_names(old(registry)@).push(metadata.node_type@));
}

impl USDPlugin {
    /// Name, version and author of the plugin.
    pub fn plugin_info(&self) -> (info: PluginInfo)
        ensures
            info.name@ == "USD Plugin"@,
            info.version@ == "0.2.0"@,
            info.author@ == "Nodle Contributors"@,
            info.description@ == "Complete Universal Scene Description (USD) support for Nodle"@,
            info.compatible_version@ == "0.1.0"@,
    {
        PluginInfo {
            name: "USD Plugin".to_owned(),
            version: "0.2.0".to_owned(),
            author: "Nodle Contributors".to_owned(),
            description: "Complete Universal Scene Description (USD) support for Nodle".to_owned(),
            compatible_version: "0.1.0".to_owned(),
        }
    }

    /// Registers every kind of node of the plugin: the viewport first, then
    /// stages, geometry, transforms, lights, shading and the inspector.
    pub fn register_nodes(&self, registry: &mut Vec<NodeMetadata>)
        ensures
            type_names(final(registry)@) == type_names(old(registry)@) + registered_types(),
    {
        register(registry, USDViewport::default().metadata());
        register(registry, USDCreateStageFactory.metadata());
        register(registry, USDLoadStageFactory.metadata());
        register(registry, USDSaveStageFactory.metadata());
        register(registry, USDMeshFactory.metadata());
        register(registry, USDSphereFactory.metadata());
        register(registry, USDCubeFactory.metadata());
        register(registry, USDCylinderFactory.metadata());
        register(registry, USDXformFactory.metadata());
        register(registry, USDTranslateFactory.metadata());
        register(registry, USDRotateFactory.metadata());
        register(registry, USDScaleFactory.metadata());
        register(registry, USDDistantLightFactory.metadata());
        register(registry, USDSphereLightFactory.metadata());
        register(registry, USDDomeLightFactory.metadata());
        register(registry, USDMaterialFactory.metadata());
        register(registry, USDShaderFactory.metadata());
        register(registry, USDTextureFactory.metadata());
        register(registry, USDStageInspectorFactory.metadata());
        assert(type_names(registry@) =~= type_names(old(registry)@) + registered_types());
    }

    /// Called when the editor has loaded the plugin.
    pub fn on_load(&self) -> (r: Result<(), String>)
        ensures
            r is Ok,
    {
        Ok(())
    }

    /// Called before the editor unloads the plugin.
    pub fn on_unload(&self) -> (r: Result<(), String>)
        ensures
            r is Ok,
    {
        Ok(())
    }
}

} // verus!
