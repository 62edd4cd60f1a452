//! Nodes that open stages and compose layers into them.

use vstd::prelude::*;
use vstd::string::*;
use crate::engine::{
    payload_info, put_stage, reference_info, stage_not_found, sublayer_info, StageView, USDEngine,
};
use crate::nodes::data::{
    add_entry, listing, lookup, lookup_flag, lookup_text, named, text_value, DataView, NodeData,
};
use crate::nodes::interface::{add_line, lines, ItemView, Node, PanelItem, Widget, WidgetView};
use crate::nodes::metadata::{
    optional_port, required_port, Color32, DataType, MetadataView, NodeMetadata, PanelType,
    PortDefinition, ProcessingCost,
};
use crate::nodes::prim_nodes::{numbered, numbered_text, DEFAULT_STAGE};

verus! {

/// Opens a new stage for scene assembly.
#[derive(Debug, Default, Clone, Copy)]
pub struct USDCreateStage;

/// Opens a stage from a file.
#[derive(Debug, Default, Clone, Copy)]
pub struct USDLoadStage;

/// Saves a stage to a file.
#[derive(Debug, Default, Clone, Copy)]
pub struct USDSaveStage;

/// Adds a sublayer to a stage.
#[derive(Debug, Default, Clone, Copy)]
pub struct USDSubLayer;

/// Adds a reference to an asset.
#[derive(Debug, Default, Clone, Copy)]
pub struct USDReference;

/// Adds a payload, an asset that is loaded on demand.
#[derive(Debug, Default, Clone, Copy)]
pub struct USDPayload;

/// The time offset that a sublayer node applies, as the report shows it.
pub const NO_OFFSET: &'static str = "0";

/// The asset that a reference node points at when it is given none.
pub const DEFAULT_REFERENCE_ASSET: &'static str = "assets/character.usda";

/// The prim of the default reference asset.
pub const DEFAULT_REFERENCE_TARGET: &'static str = "/Character";

/// The asset that a payload node points at when it is given none.
pub const DEFAULT_PAYLOAD_ASSET: &'static str = "assets/environment.usda";

/// The prim of the default payload asset.
pub const DEFAULT_PAYLOAD_TARGET: &'static str = "/Environment";

/// The stage that an in-memory stage named `identifier` is.
pub open spec fn memory_stage(identifier: Seq<char>) -> StageView {
    StageView { path: "mock://"@ + identifier, identifier }
}

impl USDCreateStage {
    /// Runs the node with number `node_id`: opens the stage `stage_` and the
    /// number, and answers its identifier.
    pub fn execute(engine: &mut USDEngine, node_id: usize) -> (r: Result<String, String>)
        requires
            old(engine).wf(),
        ensures
            final(engine).wf(),
            r matches Ok(id) && id@ == numbered_text("stage_"@, node_id as nat),
            final(engine).stages() == put_stage(
                old(engine).stages(),
                memory_stage(numbered_text("stage_"@, node_id as nat)),
            ),
            final(engine).prims() == old(engine).prims(),
    {
        let identifier = numbered("stage_", node_id);
        match engine.create_stage(identifier.as_str()) {
            Ok(stage) => Ok(stage.identifier),
            Err(e) => Err(e),
        }
    }
}

/// The layer file of the sublayer node with number `id`.
pub open spec fn sublayer_path(id: nat) -> Seq<char> {
    "layers/sublayer_"@ + crate::text::decimal_text(id) + ".usda"@
}

impl USDSubLayer {
    /// Runs the node with number `node_id`: adds the layer
    /// `layers/sublayer_<number>.usda` to the default stage, without a time
    /// offset, and answers the report.
    pub fn execute(engine: &USDEngine, node_id: usize) -> (r: Result<String, String>)
        ensures
            engine.has_stage(DEFAULT_STAGE@) ==> (r matches Ok(info) && info@ == sublayer_info(
                sublayer_path(node_id as nat),
                NO_OFFSET@,
            )),
            !engine.has_stage(DEFAULT_STAGE@) ==> (r matches Err(e) && e@ == stage_not_found(
                DEFAULT_STAGE@,
            )),
    {
        let mut layer_path = numbered("layers/sublayer_", node_id);
        layer_path.append(".usda");
        engine.add_sublayer(DEFAULT_STAGE, layer_path.as_str(), NO_OFFSET)
    }
}

impl USDReference {
    /// Runs the node with number `node_id`: references the default asset at
    /// `/references/ref_<number>` on the default stage.
    pub fn execute(engine: &mut USDEngine, node_id: usize) -> (r: Result<String, String>)
        requires
            old(engine).wf(),
        ensures
            final(engine).wf(),
            final(engine).stages() == old(engine).stages(),
            old(engine).linked(
                *final(engine),
                DEFAULT_STAGE@,
                numbered_text("/references/ref_"@, node_id as nat),
                reference_info(DEFAULT_REFERENCE_ASSET@, Some(DEFAULT_REFERENCE_TARGET@)),
                r,
            ),
    {
        let prim_path = numbered("/references/ref_", node_id);
        engine.add_reference(
            DEFAULT_STAGE,
            prim_path.as_str(),
            DEFAULT_REFERENCE_ASSET,
            Some(DEFAULT_REFERENCE_TARGET),
        )
    }
}

impl USDPayload {
    /// Runs the node with number `node_id`: adds the default payload at
    /// `/payloads/payload_<number>` on the default stage.
    pub fn execute(engine: &mut USDEngine, node_id: usize) -> (r: Result<String, String>)
        requires
            old(engine).wf(),
        ensures
            final(engine).wf(),
            final(engine).stages() == old(engine).stages(),
            old(engine).linked(
                *final(engine),
                DEFAULT_STAGE@,
                numbered_text("/payloads/payload_"@, node_id as nat),
                payload_info(DEFAULT_PAYLOAD_ASSET@, Some(DEFAULT_PAYLOAD_TARGET@)),
                r,
            ),
    {
        let prim_path = numbered("/payloads/payload_", node_id);
        engine.add_payload(
            DEFAULT_STAGE,
            prim_path.as_str(),
            DEFAULT_PAYLOAD_ASSET,
            Some(DEFAULT_PAYLOAD_TARGET),
        )
    }
}

/// The panel of the stage-creating node.
#[derive(Debug, Default, Clone, Copy)]
pub struct CreateStageNode;

/// What the stage-creating node does.
#[derive(Debug, Default, Clone, Copy)]
pub struct CreateStageLogic;

/// The identifier that the stage-creating node uses: the `Identifier` input
/// where there is one, else the `identifier` parameter; `default` where that
/// is no text.
pub open spec fn wanted_identifier(
    inputs: Seq<(String, NodeData)>,
    parameters: Seq<(String, NodeData)>,
) -> Seq<char> {
    let chosen = match named(inputs, "Identifier"@) {
        Some(d) => Some(d),
        None => named(parameters, "identifier"@),
    };
    match chosen {
        Some(d) => match d.text() {
            Some(t) => t,
            None => "default"@,
        },
        None => "default"@,
    }
}

impl CreateStageLogic {
    /// Opens the stage that the inputs and parameters ask for, and answers
    /// its identifier under `Stage` and the root path under `Root Path`.
    pub fn execute(
        engine: &mut USDEngine,
        inputs: &Vec<(String, NodeData)>,
        parameters: &Vec<(String, NodeData)>,
    ) -> (outputs: Vec<(String, NodeData)>)
        requires
            old(engine).wf(),
        ensures
            final(engine).wf(),
            final(engine).stages() == put_stage(
                old(engine).stages(),
                memory_stage(wanted_identifier(inputs@, parameters@)),
            ),
            final(engine).prims() == old(engine).prims(),
            listing(outputs@) == seq![
                ("Stage"@, DataView::String(wanted_identifier(inputs@, parameters@))),
                ("Root Path"@, DataView::String("/"@)),
            ],
    {
        let chosen = match lookup(inputs, "Identifier") {
            Some(d) => Some(d),
            None => lookup(parameters, "identifier"),
        };
        let identifier: &str = match chosen {
            Some(d) => match d.as_string() {
                Some(t) => t,
                None => "default",
            },
            None => "default",
        };
        let in_memory = match lookup_flag(parameters, "in_memory") {
            Some(b) => b,
            None => true,
        };
        let default_prim: &str = match lookup_text(parameters, "default_prim") {
            Some(t) => t,
            None => "/World",
        };
        let result = if in_memory {
            engine.create_stage(identifier)
        } else {
            let file_path: &str = match lookup_text(parameters, "file_path") {
                Some(t) => t,
                None => "stage.usda",
            };
            engine.create_stage_to_file(identifier, file_path)
        };
        let mut outputs: Vec<(String, NodeData)> = Vec::new();
        match result {
            Ok(stage) => {
                if !default_prim.is_empty() {
                    let _ = engine.set_default_prim(identifier, default_prim);
                }
                add_entry(&mut outputs, "Stage", NodeData::String(stage.identifier));
                add_entry(&mut outputs, "Root Path", text_value("/"));
            },
            Err(_) => {
                add_entry(&mut outputs, "Stage", NodeData::Nothing);
                add_entry(&mut outputs, "Root Path", text_value(""));
            },
        }
        assert(listing(outputs@) =~= seq![
            ("Stage"@, DataView::String(wanted_identifier(inputs@, parameters@))),
            ("Root Path"@, DataView::String("/"@)),
        ]);
        outputs
    }
}

impl USDCreateStage {
    /// How the stage-creating node presents itself to the editor.
    pub fn metadata() -> (m: NodeMetadata)
        ensures
            m@ =~~= (MetadataView {
                node_type: "USD_CreateStage"@,
                display_name: "Create Stage"@,
                category: seq!["3D"@, "USD"@, "Stage"@],
                description: "Creates a new USD stage for scene assembly"@,
                color: Some(Color32 { r: 200, g: 150, b: 100 }),
                icon: Some("🎬"@),
                inputs: seq![
                    optional_port("Identifier"@, DataType::String, "Optional stage identifier"@),
                ],
                outputs: seq![
                    required_port("Stage"@, DataType::Any, "USD Stage reference"@),
                ],
                tags: seq!["3d"@, "usd"@, "stage"@, "create"@, "pixar"@],
                processing_cost: Some(ProcessingCost::Medium),
                workspace_compatibility: seq!["3d"@, "usd"@, "pipeline"@],
                panel_type: None,
            }),
    {
        NodeMetadata::new(
            "USD_CreateStage",
            "Create Stage",
            vec!["3D", "USD", "Stage"],
            "Creates a new USD stage for scene assembly",
        )
            .with_color(Color32::from_rgb(200, 150, 100))
            .with_icon("🎬")
            .with_inputs(vec![
                PortDefinition::optional("Identifier", DataType::String)
                    .with_description("Optional stage identifier"),
            ])
            .with_outputs(vec![
                PortDefinition::required("Stage", DataType::Any)
                    .with_description("USD Stage reference"),
            ])
            .with_tags(vec!["3d", "usd", "stage", "create", "pixar"])
            .with_processing_cost(ProcessingCost::Medium)
            .with_workspace_compatibility(vec!["3d", "usd", "pipeline"])
    }
}

impl USDLoadStage {
    /// How the stage-loading node presents itself to the editor.
    pub fn metadata() -> (m: NodeMetadata)
        ensures
            m@ =~~= (MetadataView {
                node_type: "USD_LoadStage"@,
                display_name: "Load Stage"@,
                category: seq!["3D"@, "USD"@, "Stage"@],
                description: "Loads a USD stage from a .usd, .usda, or .usdc file"@,
                color: Some(Color32 { r: 200, g: 150, b: 100 }),
                icon: Some("📂"@),
                inputs: seq![
                    required_port("File Path"@, DataType::String, "Path to USD file"@),
                ],
                outputs: seq![
                    required_port("Stage"@, DataType::Any, "Loaded USD Stage"@),
                ],
                tags: seq!["3d"@, "usd"@, "stage"@, "load"@, "import"@, "pixar"@],
                processing_cost: Some(ProcessingCost::High),
                workspace_compatibility: seq!["3d"@, "usd"@, "pipeline"@],
                panel_type: None,
            }),
    {
        NodeMetadata::new(
            "USD_LoadStage",
            "Load Stage",
            vec!["3D", "USD", "Stage"],
            "Loads a USD stage from a .usd, .usda, or .usdc file",
        )
            .with_color(Color32::from_rgb(200, 150, 100))
            .with_icon("📂")
            .with_inputs(vec![
                PortDefinition::required("File Path", DataType::String)
                    .with_description("Path to USD file"),
            ])
            .with_outputs(vec![
                PortDefinition::required("Stage", DataType::Any)
                    .with_description("Loaded USD Stage"),
            ])
            .with_tags(vec!["3d", "usd", "stage", "load", "import", "pixar"])
            .with_processing_cost(ProcessingCost::High)
            .with_workspace_compatibility(vec!["3d", "usd", "pipeline"])
    }
}

impl USDSaveStage {
    /// How the stage-saving node presents itself to the editor.
    pub fn metadata() -> (m: NodeMetadata)
        ensures
            m@ =~~= (MetadataView {
                node_type: "USD_SaveStage"@,
                display_name: "Save Stage"@,
                category: seq!["3D"@, "USD"@, "Stage"@],
                description: "Saves a USD stage to a .usd, .usda, or .usdc file"@,
                color: Some(Color32 { r: 200, g: 150, b: 100 }),
                icon: Some("💾"@),
                inputs: seq![
                    required_port("Stage"@, DataType::Any, "USD Stage to save"@),
                    required_port("File Path"@, DataType::String, "Output file path"@),
                    optional_port(
                        "Format"@,
                        DataType::String,
                        "File format: usda (ASCII) or usdc (Crate)"@,
                    ),
                ],
                outputs: seq![
                    required_port("Success"@, DataType::Boolean, "True if save succeeded"@),
                ],
                tags: seq!["3d"@, "usd"@, "stage"@, "save"@, "export"@, "pixar"@],
                processing_cost: Some(ProcessingCost::High),
                workspace_compatibility: seq!["3d"@, "usd"@, "pipeline"@],
                panel_type: None,
            }),
    {
        NodeMetadata::new(
            "USD_SaveStage",
            "Save Stage",
            vec!["3D", "USD", "Stage"],
            "Saves a USD stage to a .usd, .usda, or .usdc file",
        )
            .with_color(Color32::from_rgb(200, 150, 100))
            .with_icon("💾")
            .with_inputs(vec![
                PortDefinition::required("Stage", DataType::Any)
                    .with_description("USD Stage to save"),
                PortDefinition::required("File Path", DataType::String)
                    .with_description("Output file path"),
                PortDefinition::optional("Format", DataType::String)
                    .with_description("File format: usda (ASCII) or usdc (Crate)"),
            ])
            .with_outputs(vec![
                PortDefinition::required("Success", DataType::Boolean)
                    .with_description("True if save succeeded"),
            ])
            .with_tags(vec!["3d", "usd", "stage", "save", "export", "pixar"])
            .with_processing_cost(ProcessingCost::High)
            .with_workspace_compatibility(vec!["3d", "usd", "pipeline"])
    }
}

impl USDSubLayer {
    /// How the sublayer node presents itself to the editor.
    pub fn metadata() -> (m: NodeMetadata)
        ensures
            m@ =~~= (MetadataView {
                node_type: "USD_SubLayer"@,
                display_name: "SubLayer"@,
                category: seq!["3D"@, "USD"@, "Composition"@],
                description: "Adds a sublayer to a USD stage for layer composition"@,
                color: Some(Color32 { r: 180, g: 120, b: 60 }),
                icon: Some("📁"@),
                inputs: seq![
                    required_port("Stage"@, DataType::Any, "USD Stage reference"@),
                    required_port(
                        "Layer Path"@,
                        DataType::String,
                        "Path to the layer file (.usda, .usdc, .usd)"@,
                    ),
                    optional_port(
                        "Time Offset"@,
                        DataType::Float,
                        "Time offset for animation layers (default: 0.0)"@,
                    ),
                    optional_port("Scale"@, DataType::Float, "Time scale factor (default: 1.0)"@),
                ],
                outputs: seq![
                    required_port("Stage"@, DataType::Any, "Stage with sublayer added"@),
                    required_port(
                        "Layer Info"@,
                        DataType::String,
                        "Information about the added layer"@,
                    ),
                ],
                tags: seq!["usd"@, "3d"@, "composition"@, "layer"@],
                processing_cost: Some(ProcessingCost::Medium),
                workspace_compatibility: seq!["3D"@, "USD"@],
                panel_type: None,
            }),
    {
        NodeMetadata::new(
            "USD_SubLayer",
            "SubLayer",
            vec!["3D", "USD", "Composition"],
            "Adds a sublayer to a USD stage for layer composition",
        )
            .with_color(Color32::from_rgb(180, 120, 60))
            .with_icon("📁")
            .with_inputs(vec![
                PortDefinition::required("Stage", DataType::Any)
                    .with_description("USD Stage reference"),
                PortDefinition::required("Layer Path", DataType::String)
                    .with_description("Path to the layer file (.usda, .usdc, .usd)"),
                PortDefinition::optional("Time Offset", DataType::Float)
                    .with_description("Time offset for animation layers (default: 0.0)"),
                PortDefinition::optional("Scale", DataType::Float)
                    .with_description("Time scale factor (default: 1.0)"),
            ])
            .with_outputs(vec![
                PortDefinition::required("Stage", DataType::Any)
                    .with_description("Stage with sublayer added"),
                PortDefinition::required("Layer Info", DataType::String)
                    .with_description("Information about the added layer"),
            ])
            .with_workspace_compatibility(vec!["3D", "USD"])
            .with_tags(vec!["usd", "3d", "composition", "layer"])
            .with_processing_cost(ProcessingCost::Medium)
    }
}

impl USDReference {
    /// How the reference node presents itself to the editor.
    pub fn metadata() -> (m: NodeMetadata)
        ensures
            m@ =~~= (MetadataView {
                node_type: "USD_Reference"@,
                display_name: "Reference"@,
                category: seq!["3D"@, "USD"@, "Composition"@],
                description: "Adds a reference to external USD asset"@,
                color: Some(Color32 { r: 120, g: 180, b: 120 }),
                icon: Some("🔗"@),
                inputs: seq![
                    required_port("Stage"@, DataType::Any, "USD Stage reference"@),
                    required_port(
                        "Prim Path"@,
                        DataType::String,
                        "Path where reference will be created"@,
                    ),
                    required_port(
                        "Asset Path"@,
                        DataType::String,
                        "Path to the referenced USD asset"@,
                    ),
                    optional_port(
                        "Prim Target"@,
                        DataType::String,
                        "Specific prim in asset (default: defaultPrim)"@,
                    ),
                    optional_port(
                        "Layer Offset"@,
                        DataType::Vector3,
                        "Time offset and scale [offset, scale, 0]"@,
                    ),
                ],
                outputs: seq![
                    required_port("Prim"@, DataType::Any, "Reference prim created"@),
                    required_port("Stage"@, DataType::Any, "Pass-through stage reference"@),
                ],
                tags: seq!["usd"@, "3d"@, "composition"@, "reference"@],
                processing_cost: Some(ProcessingCost::Medium),
                workspace_compatibility: seq!["3D"@, "USD"@],
                panel_type: None,
            }),
    {
        NodeMetadata::new(
            "USD_Reference",
            "Reference",
            vec!["3D", "USD", "Composition"],
            "Adds a reference to external USD asset",
        )
            .with_color(Color32::from_rgb(120, 180, 120))
            .with_icon("🔗")
            .with_inputs(vec![
                PortDefinition::required("Stage", DataType::Any)
                    .with_description("USD Stage reference"),
                PortDefinition::required("Prim Path", DataType::String)
                    .with_description("Path where reference will be created"),
                PortDefinition::required("Asset Path", DataType::String)
                    .with_description("Path to the referenced USD asset"),
                PortDefinition::optional("Prim Target", DataType::String)
                    .with_description("Specific prim in asset (default: defaultPrim)"),
                PortDefinition::optional("Layer Offset", DataType::Vector3)
                    .with_description("Time offset and scale [offset, scale, 0]"),
            ])
            .with_outputs(vec![
                PortDefinition::required("Prim", DataType::Any)
                    .with_description("Reference prim created"),
                PortDefinition::required("Stage", DataType::Any)
                    .with_description("Pass-through stage reference"),
            ])
            .with_workspace_compatibility(vec!["3D", "USD"])
            .with_tags(vec!["usd", "3d", "composition", "reference"])
            .with_processing_cost(ProcessingCost::Medium)
    }
}

impl USDPayload {
    /// How the payload node presents itself to the editor.
    pub fn metadata() -> (m: NodeMetadata)
        ensures
            m@ =~~= (MetadataView {
                node_type: "USD_Payload"@,
                display_name: "Payload"@,
                category: seq!["3D"@, "USD"@, "Composition"@],
                description: "Adds a payload for deferred loading of heavy assets"@,
                color: Some(Color32 { r: 120, g: 120, b: 180 }),
                icon: Some("💾"@),
                inputs: seq![
                    required_port("Stage"@, DataType::Any, "USD Stage reference"@),
                    required_port(
                        "Prim Path"@,
                        DataType::String,
                        "Path where payload will be created"@,
                    ),
                    required_port(
                        "Asset Path"@,
                        DataType::String,
                        "Path to the payload USD asset"@,
                    ),
                    optional_port(
                        "Prim Target"@,
                        DataType::String,
                        "Specific prim in asset (default: defaultPrim)"@,
                    ),
                    optional_port(
                        "Load State"@,
                        DataType::Boolean,
                        "Whether to load immediately (default: false)"@,
                    ),
                ],
                outputs: seq![
                    required_port("Prim"@, DataType::Any, "Payload prim created"@),
                    required_port("Stage"@, DataType::Any, "Pass-through stage reference"@),
                ],
                tags: seq!["usd"@, "3d"@, "composition"@, "payload"@],
                processing_cost: Some(ProcessingCost::High),
                workspace_compatibility: seq!["3D"@, "USD"@],
                panel_type: None,
            }),
    {
        NodeMetadata::new(
            "USD_Payload",
            "Payload",
            vec!["3D", "USD", "Composition"],
            "Adds a payload for deferred loading of heavy assets",
        )
            .with_color(Color32::from_rgb(120, 120, 180))
            .with_icon("💾")
            .with_inputs(vec![
                PortDefinition::required("Stage", DataType::Any)
                    .with_description("USD Stage reference"),
                PortDefinition::required("Prim Path", DataType::String)
                    .with_description("Path where payload will be created"),
                PortDefinition::required("Asset Path", DataType::String)
                    .with_description("Path to the payload USD asset"),
                PortDefinition::optional("Prim Target", DataType::String)
                    .with_description("Specific prim in asset (default: defaultPrim)"),
                PortDefinition::optional("Load State", DataType::Boolean)
                    .with_description("Whether to load immediately (default: false)"),
            ])
            .with_outputs(vec![
                PortDefinition::required("Prim", DataType::Any)
                    .with_description("Payload prim created"),
                PortDefinition::required("Stage", DataType::Any)
                    .with_description("Pass-through stage reference"),
            ])
            .with_workspace_compatibility(vec!["3D", "USD"])
            .with_tags(vec!["usd", "3d", "composition", "payload"])
            .with_processing_cost(ProcessingCost::High)
    }
}

impl CreateStageNode {
    /// How the stage-creating node with a panel presents itself to the editor.
    pub fn metadata() -> (m: NodeMetadata)
        ensures
            m@ =~~= (MetadataView {
                node_type: "USD_Stage_Create"@,
                display_name: "Create Stage"@,
                category: seq!["3D"@, "USD"@, "Stage"@],
                description: "Creates a new USD stage for scene composition"@,
                color: Some(Color32 { r: 180, g: 120, b: 80 }),
                icon: Some("📄"@),
                inputs: seq![
                    optional_port(
                        "Identifier"@,
                        DataType::String,
                        "Stage identifier (defaults to 'default')"@,
                    ),
                ],
                outputs: seq![
                    required_port("Stage"@, DataType::Any, "USD Stage reference"@),
                    required_port("Root Path"@, DataType::String, "Root prim path (/)"@),
                ],
                tags: seq!["usd"@, "stage"@, "create"@, "scene"@],
                processing_cost: Some(ProcessingCost::Low),
                workspace_compatibility: seq!["3D"@, "USD"@],
                panel_type: Some(PanelType::Parameter),
            }),
    {
        NodeMetadata::new(
            "USD_Stage_Create",
            "Create Stage",
            vec!["3D", "USD", "Stage"],
            "Creates a new USD stage for scene composition",
        )
            .with_color(Color32::from_rgb(180, 120, 80))
            .with_icon("📄")
            .with_inputs(vec![
                PortDefinition::optional("Identifier", DataType::String)
                    .with_description("Stage identifier (defaults to 'default')"),
            ])
            .with_outputs(vec![
                PortDefinition::required("Stage", DataType::Any)
                    .with_description("USD Stage reference"),
                PortDefinition::required("Root Path", DataType::String)
                    .with_description("Root prim path (/)"),
            ])
            .with_tags(vec!["usd", "stage", "create", "scene"])
            .with_processing_cost(ProcessingCost::Low)
            .with_workspace_compatibility(vec!["3D", "USD"])
            .with_panel_type(PanelType::Parameter)
    }
}

/// The stage is made in memory: the `in_memory` parameter is on, or the
/// node holds none.
pub open spec fn made_in_memory(parameters: Seq<(String, NodeData)>) -> bool {
    match named(parameters, "in_memory"@) {
        Some(d) => d.flag() == Some(true),
        None => true,
    }
}

impl CreateStageNode {
    /// The lines of the panel of the stage-creating node. The line for the
    /// file is there while the stage is not made in memory.
    pub open spec fn panel_lines(in_memory: bool) -> Seq<ItemView> {
        let head = seq![
            ItemView::Heading("Create Stage"@),
            ItemView::Separator,
            ItemView::Parameter {
                name: "identifier"@,
                label: "Stage ID"@,
                default: DataView::String("default"@),
                widget: WidgetView::TextLine { hints: Seq::empty() },
            },
            ItemView::Parameter {
                name: "in_memory"@,
                label: "In Memory"@,
                default: DataView::Boolean(true),
                widget: WidgetView::Checkbox { text: "Create in-memory stage"@ },
            },
        ];
        let file = ItemView::Parameter {
            name: "file_path"@,
            label: "File Path"@,
            default: DataView::String("stage.usda"@),
            widget: WidgetView::TextLine { hints: Seq::empty() },
        };
        let prim = ItemView::Parameter {
            name: "default_prim"@,
            label: "Default Prim"@,
            default: DataView::String("/World"@),
            widget: WidgetView::TextLine { hints: Seq::empty() },
        };
        if in_memory {
            head.push(prim)
        } else {
            head.push(file).push(prim)
        }
    }

    /// Builds the panel of the stage-creating node: its lines from top to
    /// bottom. The editor shows each parameter with `Node::current` and takes
    /// changes over with `Node::commit`.
    pub fn build_interface(node: &Node) -> (items: Vec<PanelItem>)
        ensures
            lines(items@) =~~= Self::panel_lines(made_in_memory(node.parameters@)),
    {
        let in_memory = match lookup(&node.parameters, "in_memory") {
            Some(d) => match d.as_boolean() {
                Some(b) => b,
                None => false,
            },
            None => true,
        };
        let mut items: Vec<PanelItem> = Vec::new();
        add_line(&mut items, PanelItem::Heading("Create Stage".to_owned()));
        add_line(&mut items, PanelItem::Separator);
        add_line(
            &mut items,
            PanelItem::Parameter {
                name: "identifier".to_owned(),
                label: "Stage ID".to_owned(),
                default: text_value("default"),
                widget: Widget::TextLine { hints: Vec::new() },
            },
        );
        add_line(
            &mut items,
            PanelItem::Parameter {
                name: "in_memory".to_owned(),
                label: "In Memory".to_owned(),
                default: NodeData::Boolean(true),
                widget: Widget::Checkbox { text: "Create in-memory stage".to_owned() },
            },
        );
        if !in_memory {
            add_line(
                &mut items,
                PanelItem::Parameter {
                    name: "file_path".to_owned(),
                    label: "File Path".to_owned(),
                    default: text_value("stage.usda"),
                    widget: Widget::TextLine { hints: Vec::new() },
                },
            );
        }
        add_line(
            &mut items,
            PanelItem::Parameter {
                name: "default_prim".to_owned(),
                label: "Default Prim".to_owned(),
                default: text_value("/World"),
                widget: Widget::TextLine { hints: Vec::new() },
            },
        );
        items
    }
}

} // verus!
