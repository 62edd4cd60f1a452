//! Nodes that create one prim each, and the nodes that read and write
//! attributes.
//!
//! A node that runs without inputs works on the stage `default_stage` and
//! names its prim after its own number in the graph.

use vstd::prelude::*;
use vstd::string::*;
use crate::engine::{put_prim, stage_not_found, PrimView, USDEngine, USDPrim};
use crate::nodes::metadata::{
    optional_port, required_port, Color32, DataType, MetadataView, NodeMetadata, PortDefinition,
    ProcessingCost,
};
use crate::text::{decimal, decimal_text};

verus! {

/// The stage that nodes without a stage input work on.
pub const DEFAULT_STAGE: &'static str = "default_stage";

/// The file that a texture node reads when it is given none.
pub const DEFAULT_TEXTURE_FILE: &'static str = "textures/default.jpg";

/// `prefix` followed by the decimal numeral of `id`.
pub open spec fn numbered_text(prefix: Seq<char>, id: nat) -> Seq<char> {
    prefix + decimal_text(id)
}

/// Names a thing after the node that makes it: `prefix` and the node's number.
pub fn numbered(prefix: &str, id: usize) -> (name: String)
    ensures
        name@ == numbered_text(prefix@, id as nat),
{
    let mut name = prefix.to_owned();
    name.append(decimal(id).as_str());
    name
}

/// What a prim-creating node answers and leaves behind: where the stage is
/// open, the path of the new prim, which is then kept; where it is not, the
/// message that the stage was not found, and the prims as they were.
pub open spec fn prim_created(
    before: USDEngine,
    after: USDEngine,
    stage_id: Seq<char>,
    path: Seq<char>,
    prim_type: Seq<char>,
    r: Result<String, String>,
) -> bool {
    &&& after.stages() == before.stages()
    &&& if before.has_stage(stage_id) {
        &&& r matches Ok(p) && p@ == path
        &&& after.prims() == put_prim(before.prims(), PrimView { path, prim_type, stage_id })
    } else {
        &&& r matches Err(e) && e@ == stage_not_found(stage_id)
        &&& after.prims() == before.prims()
    }
}

/// The path of a created prim, or the message of the failure.
pub fn path_of(r: Result<USDPrim, String>) -> (out: Result<String, String>)
    ensures
        match r {
            Ok(prim) => out matches Ok(p) && p@ == prim.path@,
            Err(e) => out matches Err(m) && m@ == e@,
        },
{
    match r {
        Ok(prim) => Ok(prim.path),
        Err(e) => Err(e),
    }
}

/// Groups and transforms the prims below it.
#[derive(Debug, Default, Clone, Copy)]
pub struct USDXform;

/// Describes a polygon mesh.
#[derive(Debug, Default, Clone, Copy)]
pub struct USDMesh;

/// Creates a cube.
#[derive(Debug, Default, Clone, Copy)]
pub struct USDCube;

impl USDCube {
    /// Runs the node with number `node_id`: creates `/cube_` and the
    /// number on the default stage and answers its path.
    pub fn execute(engine: &mut USDEngine, node_id: usize) -> (r: Result<String, String>)
        requires
            old(engine).wf(),
        ensures
            final(engine).wf(),
            prim_created(
                *old(engine),
                *final(engine),
                DEFAULT_STAGE@,
                numbered_text("/cube_"@, node_id as nat),
                "Cube"@,
                r,
            ),
    {
        let path = numbered("/cube_", node_id);
        path_of(engine.create_cube(DEFAULT_STAGE, path.as_str()))
    }
}

/// Creates a sphere.
#[derive(Debug, Default, Clone, Copy)]
pub struct USDSphere;

impl USDSphere {
    /// Runs the node with number `node_id`: creates `/sphere_` and the
    /// number on the default stage and answers its path.
    pub fn execute(engine: &mut USDEngine, node_id: usize) -> (r: Result<String, String>)
        requires
            old(engine).wf(),
        ensures
            final(engine).wf(),
            prim_created(
                *old(engine),
                *final(engine),
                DEFAULT_STAGE@,
                numbered_text("/sphere_"@, node_id as nat),
                "Sphere"@,
                r,
            ),
    {
        let path = numbered("/sphere_", node_id);
        path_of(engine.create_sphere(DEFAULT_STAGE, path.as_str()))
    }
}

/// Creates a camera.
#[derive(Debug, Default, Clone, Copy)]
pub struct USDCamera;

impl USDCamera {
    /// Runs the node with number `node_id`: creates `/camera_` and the
    /// number on the default stage and answers its path.
    pub fn execute(engine: &mut USDEngine, node_id: usize) -> (r: Result<String, String>)
        requires
            old(engine).wf(),
        ensures
            final(engine).wf(),
            prim_created(
                *old(engine),
                *final(engine),
                DEFAULT_STAGE@,
                numbered_text("/camera_"@, node_id as nat),
                "Camera"@,
                r,
            ),
    {
        let path = numbered("/camera_", node_id);
        path_of(engine.create_camera(DEFAULT_STAGE, path.as_str()))
    }
}

/// Creates a distant light, a light like the sun.
#[derive(Debug, Default, Clone, Copy)]
pub struct USDDistantLight;

impl USDDistantLight {
    /// Runs the node with number `node_id`: creates `/distant_light_` and the
    /// number on the default stage and answers its path.
    pub fn execute(engine: &mut USDEngine, node_id: usize) -> (r: Result<String, String>)
        requires
            old(engine).wf(),
        ensures
            final(engine).wf(),
            prim_created(
                *old(engine),
                *final(engine),
                DEFAULT_STAGE@,
                numbered_text("/distant_light_"@, node_id as nat),
                "DistantLight"@,
                r,
            ),
    {
        let path = numbered("/distant_light_", node_id);
        path_of(engine.create_distant_light(DEFAULT_STAGE, path.as_str()))
    }
}

/// Creates a sphere light.
#[derive(Debug, Default, Clone, Copy)]
pub struct USDSphereLight;

impl USDSphereLight {
    /// Runs the node with number `node_id`: creates `/sphere_light_` and the
    /// number on the default stage and answers its path.
    pub fn execute(engine: &mut USDEngine, node_id: usize) -> (r: Result<String, String>)
        requires
            old(engine).wf(),
        ensures
            final(engine).wf(),
            prim_created(
                *old(engine),
                *final(engine),
                DEFAULT_STAGE@,
                numbered_text("/sphere_light_"@, node_id as nat),
                "SphereLight"@,
                r,
            ),
    {
        let path = numbered("/sphere_light_", node_id);
        path_of(engine.create_sphere_light(DEFAULT_STAGE, path.as_str()))
    }
}

/// Creates a rectangular area light.
#[derive(Debug, Default, Clone, Copy)]
pub struct USDRectLight;

impl USDRectLight {
    /// Runs the node with number `node_id`: creates `/rect_light_` and the
    /// number on the default stage and answers its path.
    pub fn execute(engine: &mut USDEngine, node_id: usize) -> (r: Result<String, String>)
        requires
            old(engine).wf(),
        ensures
            final(engine).wf(),
            prim_created(
                *old(engine),
                *final(engine),
                DEFAULT_STAGE@,
                numbered_text("/rect_light_"@, node_id as nat),
                "RectLight"@,
                r,
            ),
    {
        let path = numbered("/rect_light_", node_id);
        path_of(engine.create_rect_light(DEFAULT_STAGE, path.as_str()))
    }
}

/// Creates a material.
#[derive(Debug, Default, Clone, Copy)]
pub struct USDMaterial;

impl USDMaterial {
    /// Runs the node with number `node_id`: creates `/material_` and the
    /// number on the default stage and answers its path.
    pub fn execute(engine: &mut USDEngine, node_id: usize) -> (r: Result<String, String>)
        requires
            old(engine).wf(),
        ensures
            final(engine).wf(),
            prim_created(
                *old(engine),
                *final(engine),
                DEFAULT_STAGE@,
                numbered_text("/material_"@, node_id as nat),
                "Material"@,
                r,
            ),
    {
        let path = numbered("/material_", node_id);
        path_of(engine.create_material(DEFAULT_STAGE, path.as_str()))
    }
}

/// Creates a preview surface shader.
#[derive(Debug, Default, Clone, Copy)]
pub struct USDPreviewSurface;

impl USDPreviewSurface {
    /// Runs the node with number `node_id`: creates `/preview_surface_` and the
    /// number on the default stage and answers its path.
    pub fn execute(engine: &mut USDEngine, node_id: usize) -> (r: Result<String, String>)
        requires
            old(engine).wf(),
        ensures
            final(engine).wf(),
            prim_created(
                *old(engine),
                *final(engine),
                DEFAULT_STAGE@,
                numbered_text("/preview_surface_"@, node_id as nat),
                "Shader"@,
                r,
            ),
    {
        let path = numbered("/preview_surface_", node_id);
        path_of(engine.create_preview_surface(DEFAULT_STAGE, path.as_str()))
    }
}

/// Creates a texture reader for the default texture file.
#[derive(Debug, Default, Clone, Copy)]
pub struct USDTexture;

impl USDTexture {
    /// Runs the node with number `node_id`: creates `/texture_` and the
    /// number on the default stage and answers its path.
    pub fn execute(engine: &mut USDEngine, node_id: usize) -> (r: Result<String, String>)
        requires
            old(engine).wf(),
        ensures
            final(engine).wf(),
            prim_created(
                *old(engine),
                *final(engine),
                DEFAULT_STAGE@,
                numbered_text("/texture_"@, node_id as nat),
                "Shader"@,
                r,
            ),
    {
        let path = numbered("/texture_", node_id);
        path_of(engine.create_texture(DEFAULT_STAGE, path.as_str(), DEFAULT_TEXTURE_FILE))
    }
}

/// Reads an attribute of a prim.
#[derive(Debug, Default, Clone, Copy)]
pub struct USDGetAttribute;

/// Writes an attribute of a prim.
#[derive(Debug, Default, Clone, Copy)]
pub struct USDSetAttribute;

impl USDXform {
    /// How the xform node presents itself to the editor.
    pub fn metadata() -> (m: NodeMetadata)
        ensures
            m@ =~~= (MetadataView {
                node_type: "USD_Xform"@,
                display_name: "USD Xform"@,
                category: seq!["3D"@, "USD"@, "Primitives"@],
                description: "Creates a USD transform primitive for hierarchical scene organization"@,
                color: Some(Color32 { r: 200, g: 150, b: 100 }),
                icon: Some("🔧"@),
                inputs: seq![
                    required_port("Stage"@, DataType::Any, "USD Stage reference"@),
                    required_port(
                        "Path"@,
                        DataType::String,
                        "Prim path (e.g., /World/MyTransform)"@,
                    ),
                    optional_port("Parent"@, DataType::Any, "Parent prim (optional)"@),
                ],
                outputs: seq![
                    required_port("Prim"@, DataType::Any, "USD Xform prim"@),
                    required_port("Stage"@, DataType::Any, "Pass-through stage reference"@),
                ],
                tags: seq!["usd"@, "3d"@, "transform"@, "hierarchy"@],
                processing_cost: Some(ProcessingCost::Low),
                workspace_compatibility: seq!["3D"@, "USD"@],
                panel_type: None,
            }),
    {
        NodeMetadata::new(
            "USD_Xform",
            "USD Xform",
            vec!["3D", "USD", "Primitives"],
            "Creates a USD transform primitive for hierarchical scene organization",
        )
            .with_color(Color32::from_rgb(200, 150, 100))
            .with_icon("🔧")
            .with_inputs(vec![
                PortDefinition::required("Stage", DataType::Any)
                    .with_description("USD Stage reference"),
                PortDefinition::required("Path", DataType::String)
                    .with_description("Prim path (e.g., /World/MyTransform)"),
                PortDefinition::optional("Parent", DataType::Any)
                    .with_description("Parent prim (optional)"),
            ])
            .with_outputs(vec![
                PortDefinition::required("Prim", DataType::Any).with_description("USD Xform prim"),
                PortDefinition::required("Stage", DataType::Any)
                    .with_description("Pass-through stage reference"),
            ])
            .with_workspace_compatibility(vec!["3D", "USD"])
            .with_tags(vec!["usd", "3d", "transform", "hierarchy"])
            .with_processing_cost(ProcessingCost::Low)
    }
}

impl USDMesh {
    /// How the mesh node presents itself to the editor.
    pub fn metadata() -> (m: NodeMetadata)
        ensures
            m@ =~~= (MetadataView {
                node_type: "USD_Mesh"@,
                display_name: "USD Mesh"@,
                category: seq!["3D"@, "USD"@, "Primitives"@],
                description: "Creates a USD mesh primitive from vertex and face data"@,
                color: Some(Color32 { r: 200, g: 150, b: 100 }),
                icon: Some("📎"@),
                inputs: seq![
                    required_port("Stage"@, DataType::Any, "USD Stage reference"@),
                    required_port("Path"@, DataType::String, "Prim path (e.g., /World/MyMesh)"@),
                    required_port("Points"@, DataType::Any, "Vertex positions array"@),
                    required_port("Face Counts"@, DataType::Any, "Vertices per face array"@),
                    required_port("Face Indices"@, DataType::Any, "Vertex indices for faces"@),
                    optional_port("Normals"@, DataType::Any, "Vertex normals (optional)"@),
                    optional_port("UVs"@, DataType::Any, "Texture coordinates (optional)"@),
                ],
                outputs: seq![
                    required_port("Prim"@, DataType::Any, "USD Mesh prim"@),
                    required_port("Stage"@, DataType::Any, "Pass-through stage reference"@),
                ],
                tags: seq!["usd"@, "3d"@, "geometry"@, "mesh"@],
                processing_cost: Some(ProcessingCost::Medium),
                workspace_compatibility: seq!["3D"@, "USD"@],
                panel_type: None,
            }),
    {
        NodeMetadata::new(
            "USD_Mesh",
            "USD Mesh",
            vec!["3D", "USD", "Primitives"],
            "Creates a USD mesh primitive from vertex and face data",
        )
            .with_color(Color32::from_rgb(200, 150, 100))
            .with_icon("📎")
            .with_inputs(vec![
                PortDefinition::required("Stage", DataType::Any)
                    .with_description("USD Stage reference"),
                PortDefinition::required("Path", DataType::String)
                    .with_description("Prim path (e.g., /World/MyMesh)"),
                PortDefinition::required("Points", DataType::Any)
                    .with_description("Vertex positions array"),
                PortDefinition::required("Face Counts", DataType::Any)
                    .with_description("Vertices per face array"),
                PortDefinition::required("Face Indices", DataType::Any)
                    .with_description("Vertex indices for faces"),
                PortDefinition::optional("Normals", DataType::Any)
                    .with_description("Vertex normals (optional)"),
                PortDefinition::optional("UVs", DataType::Any)
                    .with_description("Texture coordinates (optional)"),
            ])
            .with_outputs(vec![
                PortDefinition::required("Prim", DataType::Any).with_description("USD Mesh prim"),
                PortDefinition::required("Stage", DataType::Any)
                    .with_description("Pass-through stage reference"),
            ])
            .with_workspace_compatibility(vec!["3D", "USD"])
            .with_tags(vec!["usd", "3d", "geometry", "mesh"])
            .with_processing_cost(ProcessingCost::Medium)
    }
}

impl USDCube {
    /// How the cube node presents itself to the editor.
    pub fn metadata() -> (m: NodeMetadata)
        ensures
            m@ =~~= (MetadataView {
                node_type: "USD_Cube"@,
                display_name: "USD Cube"@,
                category: seq!["3D"@, "USD"@, "Primitives"@],
                description: "Creates a USD cube primitive"@,
                color: Some(Color32 { r: 200, g: 150, b: 100 }),
                icon: Some("📦"@),
                inputs: seq![
                    required_port("Stage"@, DataType::Any, "USD Stage reference"@),
                    required_port("Path"@, DataType::String, "Prim path (e.g., /World/MyCube)"@),
                    optional_port("Size"@, DataType::Float, "Cube size (default: 1.0)"@),
                ],
                outputs: seq![
                    required_port("Prim"@, DataType::Any, "USD Cube prim"@),
                    required_port("Stage"@, DataType::Any, "Pass-through stage reference"@),
                ],
                tags: seq!["usd"@, "3d"@, "geometry"@, "primitive"@],
                processing_cost: Some(ProcessingCost::Low),
                workspace_compatibility: seq!["3D"@, "USD"@],
                panel_type: None,
            }),
    {
        NodeMetadata::new(
            "USD_Cube",
            "USD Cube",
            vec!["3D", "USD", "Primitives"],
            "Creates a USD cube primitive",
        )
            .with_color(Color32::from_rgb(200, 150, 100))
            .with_icon("📦")
            .with_inputs(vec![
                PortDefinition::required("Stage", DataType::Any)
                    .with_description("USD Stage reference"),
                PortDefinition::required("Path", DataType::String)
                    .with_description("Prim path (e.g., /World/MyCube)"),
                PortDefinition::optional("Size", DataType::Float)
                    .with_description("Cube size (default: 1.0)"),
            ])
            .with_outputs(vec![
                PortDefinition::required("Prim", DataType::Any).with_description("USD Cube prim"),
                PortDefinition::required("Stage", DataType::Any)
                    .with_description("Pass-through stage reference"),
            ])
            .with_workspace_compatibility(vec!["3D", "USD"])
            .with_tags(vec!["usd", "3d", "geometry", "primitive"])
            .with_processing_cost(ProcessingCost::Low)
    }
}

impl USDSphere {
    /// How the sphere node presents itself to the editor.
    pub fn metadata() -> (m: NodeMetadata)
        ensures
            m@ =~~= (MetadataView {
                node_type: "USD_Sphere"@,
                display_name: "USD Sphere"@,
                category: seq!["3D"@, "USD"@, "Primitives"@],
                description: "Creates a USD sphere primitive"@,
                color: Some(Color32 { r: 200, g: 150, b: 100 }),
                icon: Some("⚽"@),
                inputs: seq![
                    required_port("Stage"@, DataType::Any, "USD Stage reference"@),
                    required_port("Path"@, DataType::String, "Prim path (e.g., /World/MySphere)"@),
                    optional_port("Radius"@, DataType::Float, "Sphere radius (default: 1.0)"@),
                ],
                outputs: seq![
                    required_port("Prim"@, DataType::Any, "USD Sphere prim"@),
                    required_port("Stage"@, DataType::Any, "Pass-through stage reference"@),
                ],
                tags: seq!["usd"@, "3d"@, "geometry"@, "primitive"@],
                processing_cost: Some(ProcessingCost::Low),
                workspace_compatibility: seq!["3D"@, "USD"@],
                panel_type: None,
            }),
    {
        NodeMetadata::new(
            "USD_Sphere",
            "USD Sphere",
            vec!["3D", "USD", "Primitives"],
            "Creates a USD sphere primitive",
        )
            .with_color(Color32::from_rgb(200, 150, 100))
            .with_icon("⚽")
            .with_inputs(vec![
                PortDefinition::required("Stage", DataType::Any)
                    .with_description("USD Stage reference"),
                PortDefinition::required("Path", DataType::String)
                    .with_description("Prim path (e.g., /World/MySphere)"),
                PortDefinition::optional("Radius", DataType::Float)
                    .with_description("Sphere radius (default: 1.0)"),
            ])
            .with_outputs(vec![
                PortDefinition::required("Prim", DataType::Any).with_description("USD Sphere prim"),
                PortDefinition::required("Stage", DataType::Any)
                    .with_description("Pass-through stage reference"),
            ])
            .with_workspace_compatibility(vec!["3D", "USD"])
            .with_tags(vec!["usd", "3d", "geometry", "primitive"])
            .with_processing_cost(ProcessingCost::Low)
    }
}

impl USDCamera {
    /// How the camera node presents itself to the editor.
    pub fn metadata() -> (m: NodeMetadata)
        ensures
            m@ =~~= (MetadataView {
                node_type: "USD_Camera"@,
                display_name: "USD Camera"@,
                category: seq!["3D"@, "USD"@, "Primitives"@],
                description: "Creates a USD camera primitive with lens parameters"@,
                color: Some(Color32 { r: 200, g: 150, b: 100 }),
                icon: Some("🎥"@),
                inputs: seq![
                    required_port("Stage"@, DataType::Any, "USD Stage reference"@),
                    required_port(
                        "Path"@,
                        DataType::String,
                        "Prim path (e.g., /World/MainCamera)"@,
                    ),
                    optional_port(
                        "Focal Length"@,
                        DataType::Float,
                        "Camera focal length in mm (default: 50.0)"@,
                    ),
                    optional_port(
                        "Near Clip"@,
                        DataType::Float,
                        "Near clipping plane (default: 0.1)"@,
                    ),
                    optional_port(
                        "Far Clip"@,
                        DataType::Float,
                        "Far clipping plane (default: 1000.0)"@,
                    ),
                ],
                outputs: seq![
                    required_port("Prim"@, DataType::Any, "USD Camera prim"@),
                    required_port("Stage"@, DataType::Any, "Pass-through stage reference"@),
                ],
                tags: seq!["usd"@, "3d"@, "camera"@, "lens"@],
                processing_cost: Some(ProcessingCost::Low),
                workspace_compatibility: seq!["3D"@, "USD"@],
                panel_type: None,
            }),
    {
        NodeMetadata::new(
            "USD_Camera",
            "USD Camera",
            vec!["3D", "USD", "Primitives"],
            "Creates a USD camera primitive with lens parameters",
        )
            .with_color(Color32::from_rgb(200, 150, 100))
            .with_icon("🎥")
            .with_inputs(vec![
                PortDefinition::required("Stage", DataType::Any)
                    .with_description("USD Stage reference"),
                PortDefinition::required("Path", DataType::String)
                    .with_description("Prim path (e.g., /World/MainCamera)"),
                PortDefinition::optional("Focal Length", DataType::Float)
                    .with_description("Camera focal length in mm (default: 50.0)"),
                PortDefinition::optional("Near Clip", DataType::Float)
                    .with_description("Near clipping plane (default: 0.1)"),
                PortDefinition::optional("Far Clip", DataType::Float)
                    .with_description("Far clipping plane (default: 1000.0)"),
            ])
            .with_outputs(vec![
                PortDefinition::required("Prim", DataType::Any).with_description("USD Camera prim"),
                PortDefinition::required("Stage", DataType::Any)
                    .with_description("Pass-through stage reference"),
            ])
            .with_workspace_compatibility(vec!["3D", "USD"])
            .with_tags(vec!["usd", "3d", "camera", "lens"])
            .with_processing_cost(ProcessingCost::Low)
    }
}

impl USDDistantLight {
    /// How the distant light node presents itself to the editor.
    pub fn metadata() -> (m: NodeMetadata)
        ensures
            m@ =~~= (MetadataView {
                node_type: "USD_DistantLight"@,
                display_name: "Distant Light"@,
                category: seq!["3D"@, "USD"@, "Lighting"@],
                description: "Creates a USD distant light (directional, like sun)"@,
                color: Some(Color32 { r: 255, g: 220, b: 120 }),
                icon: Some("💫"@),
                inputs: seq![
                    required_port("Stage"@, DataType::Any, "USD Stage reference"@),
                    required_port("Path"@, DataType::String, "Prim path (e.g., /World/SunLight)"@),
                    optional_port("Intensity"@, DataType::Float, "Light intensity (default: 1.0)"@),
                    optional_port(
                        "Angle"@,
                        DataType::Float,
                        "Angular size in degrees (default: 0.53)"@,
                    ),
                ],
                outputs: seq![
                    required_port("Prim"@, DataType::Any, "USD Distant Light prim"@),
                    required_port("Stage"@, DataType::Any, "Pass-through stage reference"@),
                ],
                tags: seq!["usd"@, "3d"@, "lighting"@, "directional"@],
                processing_cost: Some(ProcessingCost::Low),
                workspace_compatibility: seq!["3D"@, "USD"@],
                panel_type: None,
            }),
    {
        NodeMetadata::new(
            "USD_DistantLight",
            "Distant Light",
            vec!["3D", "USD", "Lighting"],
            "Creates a USD distant light (directional, like sun)",
        )
            .with_color(Color32::from_rgb(255, 220, 120))
            .with_icon("💫")
            .with_inputs(vec![
                PortDefinition::required("Stage", DataType::Any)
                    .with_description("USD Stage reference"),
                PortDefinition::required("Path", DataType::String)
                    .with_description("Prim path (e.g., /World/SunLight)"),
                PortDefinition::optional("Intensity", DataType::Float)
                    .with_description("Light intensity (default: 1.0)"),
                PortDefinition::optional("Angle", DataType::Float)
                    .with_description("Angular size in degrees (default: 0.53)"),
            ])
            .with_outputs(vec![
                PortDefinition::required("Prim", DataType::Any)
                    .with_description("USD Distant Light prim"),
                PortDefinition::required("Stage", DataType::Any)
                    .with_description("Pass-through stage reference"),
            ])
            .with_workspace_compatibility(vec!["3D", "USD"])
            .with_tags(vec!["usd", "3d", "lighting", "directional"])
            .with_processing_cost(ProcessingCost::Low)
    }
}

impl USDSphereLight {
    /// How the sphere light node presents itself to the editor.
    pub fn metadata() -> (m: NodeMetadata)
        ensures
            m@ =~~= (MetadataView {
                node_type: "USD_SphereLight"@,
                display_name: "Sphere Light"@,
                category: seq!["3D"@, "USD"@, "Lighting"@],
                description: "Creates a USD sphere light (omnidirectional point light)"@,
                color: Some(Color32 { r: 255, g: 220, b: 120 }),
                icon: Some("💡"@),
                inputs: seq![
                    required_port("Stage"@, DataType::Any, "USD Stage reference"@),
                    required_port(
                        "Path"@,
                        DataType::String,
                        "Prim path (e.g., /World/PointLight)"@,
                    ),
                    optional_port("Intensity"@, DataType::Float, "Light intensity (default: 1.0)"@),
                    optional_port("Radius"@, DataType::Float, "Light radius (default: 1.0)"@),
                ],
                outputs: seq![
                    required_port("Prim"@, DataType::Any, "USD Sphere Light prim"@),
                    required_port("Stage"@, DataType::Any, "Pass-through stage reference"@),
                ],
                tags: seq!["usd"@, "3d"@, "lighting"@, "point"@],
                processing_cost: Some(ProcessingCost::Low),
                workspace_compatibility: seq!["3D"@, "USD"@],
                panel_type: None,
            }),
    {
        NodeMetadata::new(
            "USD_SphereLight",
            "Sphere Light",
            vec!["3D", "USD", "Lighting"],
            "Creates a USD sphere light (omnidirectional point light)",
        )
            .with_color(Color32::from_rgb(255, 220, 120))
            .with_icon("💡")
            .with_inputs(vec![
                PortDefinition::required("Stage", DataType::Any)
                    .with_description("USD Stage reference"),
                PortDefinition::required("Path", DataType::String)
                    .with_description("Prim path (e.g., /World/PointLight)"),
                PortDefinition::optional("Intensity", DataType::Float)
                    .with_description("Light intensity (default: 1.0)"),
                PortDefinition::optional("Radius", DataType::Float)
                    .with_description("Light radius (default: 1.0)"),
            ])
            .with_outputs(vec![
                PortDefinition::required("Prim", DataType::Any)
                    .with_description("USD Sphere Light prim"),
                PortDefinition::required("Stage", DataType::Any)
                    .with_description("Pass-through stage reference"),
            ])
            .with_workspace_compatibility(vec!["3D", "USD"])
            .with_tags(vec!["usd", "3d", "lighting", "point"])
            .with_processing_cost(ProcessingCost::Low)
    }
}

impl USDRectLight {
    /// How the rectangular light node presents itself to the editor.
    pub fn metadata() -> (m: NodeMetadata)
        ensures
            m@ =~~= (MetadataView {
                node_type: "USD_RectLight"@,
                display_name: "Rect Light"@,
                category: seq!["3D"@, "USD"@, "Lighting"@],
                description: "Creates a USD rectangular area light"@,
                color: Some(Color32 { r: 255, g: 220, b: 120 }),
                icon: Some("🔆"@),
                inputs: seq![
                    required_port("Stage"@, DataType::Any, "USD Stage reference"@),
                    required_port("Path"@, DataType::String, "Prim path (e.g., /World/AreaLight)"@),
                    optional_port("Intensity"@, DataType::Float, "Light intensity (default: 1.0)"@),
                    optional_port("Width"@, DataType::Float, "Light width (default: 2.0)"@),
                    optional_port("Height"@, DataType::Float, "Light height (default: 2.0)"@),
                ],
                outputs: seq![
                    required_port("Prim"@, DataType::Any, "USD Rect Light prim"@),
                    required_port("Stage"@, DataType::Any, "Pass-through stage reference"@),
                ],
                tags: seq!["usd"@, "3d"@, "lighting"@, "area"@],
                processing_cost: Some(ProcessingCost::Low),
                workspace_compatibility: seq!["3D"@, "USD"@],
                panel_type: None,
            }),
    {
        NodeMetadata::new(
            "USD_RectLight",
            "Rect Light",
            vec!["3D", "USD", "Lighting"],
            "Creates a USD rectangular area light",
        )
            .with_color(Color32::from_rgb(255, 220, 120))
            .with_icon("🔆")
            .with_inputs(vec![
                PortDefinition::required("Stage", DataType::Any)
                    .with_description("USD Stage reference"),
                PortDefinition::required("Path", DataType::String)
                    .with_description("Prim path (e.g., /World/AreaLight)"),
                PortDefinition::optional("Intensity", DataType::Float)
                    .with_description("Light intensity (default: 1.0)"),
                PortDefinition::optional("Width", DataType::Float)
                    .with_description("Light width (default: 2.0)"),
                PortDefinition::optional("Height", DataType::Float)
                    .with_description("Light height (default: 2.0)"),
            ])
            .with_outputs(vec![
                PortDefinition::required("Prim", DataType::Any)
                    .with_description("USD Rect Light prim"),
                PortDefinition::required("Stage", DataType::Any)
                    .with_description("Pass-through stage reference"),
            ])
            .with_workspace_compatibility(vec!["3D", "USD"])
            .with_tags(vec!["usd", "3d", "lighting", "area"])
            .with_processing_cost(ProcessingCost::Low)
    }
}

impl USDMaterial {
    /// How the material node presents itself to the editor.
    pub fn metadata() -> (m: NodeMetadata)
        ensures
            m@ =~~= (MetadataView {
                node_type: "USD_Material"@,
                display_name: "USD Material"@,
                category: seq!["3D"@, "USD"@, "Materials"@],
                description: "Creates a USD Material primitive for shading"@,
                color: Some(Color32 { r: 150, g: 100, b: 200 }),
                icon: Some("🎨"@),
                inputs: seq![
                    required_port("Stage"@, DataType::Any, "USD Stage reference"@),
                    required_port(
                        "Path"@,
                        DataType::String,
                        "Material path (e.g., /World/Materials/Metal)"@,
                    ),
                    optional_port(
                        "Surface Shader"@,
                        DataType::Any,
                        "Surface shader (e.g., PreviewSurface)"@,
                    ),
                ],
                outputs: seq![
                    required_port("Material"@, DataType::Any, "USD Material prim"@),
                    required_port("Stage"@, DataType::Any, "Pass-through stage reference"@),
                ],
                tags: seq!["usd"@, "3d"@, "material"@, "shading"@],
                processing_cost: Some(ProcessingCost::Medium),
                workspace_compatibility: seq!["3D"@, "USD"@],
                panel_type: None,
            }),
    {
        NodeMetadata::new(
            "USD_Material",
            "USD Material",
            vec!["3D", "USD", "Materials"],
            "Creates a USD Material primitive for shading",
        )
            .with_color(Color32::from_rgb(150, 100, 200))
            .with_icon("🎨")
            .with_inputs(vec![
                PortDefinition::required("Stage", DataType::Any)
                    .with_description("USD Stage reference"),
                PortDefinition::required("Path", DataType::String)
                    .with_description("Material path (e.g., /World/Materials/Metal)"),
                PortDefinition::optional("Surface Shader", DataType::Any)
                    .with_description("Surface shader (e.g., PreviewSurface)"),
            ])
            .with_outputs(vec![
                PortDefinition::required("Material", DataType::Any)
                    .with_description("USD Material prim"),
                PortDefinition::required("Stage", DataType::Any)
                    .with_description("Pass-through stage reference"),
            ])
            .with_workspace_compatibility(vec!["3D", "USD"])
            .with_tags(vec!["usd", "3d", "material", "shading"])
            .with_processing_cost(ProcessingCost::Medium)
    }
}

impl USDPreviewSurface {
    /// How the preview surface node presents itself to the editor.
    pub fn metadata() -> (m: NodeMetadata)
        ensures
            m@ =~~= (MetadataView {
                node_type: "USD_PreviewSurface"@,
                display_name: "Preview Surface"@,
                category: seq!["3D"@, "USD"@, "Shaders"@],
                description: "Creates a USD Preview Surface shader (PBR)"@,
                color: Some(Color32 { r: 100, g: 150, b: 200 }),
                icon: Some("🌐"@),
                inputs: seq![
                    required_port("Stage"@, DataType::Any, "USD Stage reference"@),
                    required_port(
                        "Path"@,
                        DataType::String,
                        "Shader path (e.g., /World/Shaders/Surface)"@,
                    ),
                    optional_port(
                        "Diffuse Color"@,
                        DataType::Vector3,
                        "Base color RGB (default: 0.8, 0.8, 0.8)"@,
                    ),
                    optional_port(
                        "Metallic"@,
                        DataType::Float,
                        "Metallic factor 0-1 (default: 0.0)"@,
                    ),
                    optional_port(
                        "Roughness"@,
                        DataType::Float,
                        "Roughness factor 0-1 (default: 0.5)"@,
                    ),
                    optional_port(
                        "Specular"@,
                        DataType::Float,
                        "Specular factor 0-1 (default: 0.5)"@,
                    ),
                    optional_port("Diffuse Texture"@, DataType::Any, "Diffuse texture input"@),
                    optional_port("Normal Texture"@, DataType::Any, "Normal map texture input"@),
                ],
                outputs: seq![
                    required_port("Surface"@, DataType::Any, "Surface shader output"@),
                    required_port("Stage"@, DataType::Any, "Pass-through stage reference"@),
                ],
                tags: seq!["usd"@, "3d"@, "shader"@, "pbr"@],
                processing_cost: Some(ProcessingCost::Medium),
                workspace_compatibility: seq!["3D"@, "USD"@],
                panel_type: None,
            }),
    {
        NodeMetadata::new(
            "USD_PreviewSurface",
            "Preview Surface",
            vec!["3D", "USD", "Shaders"],
            "Creates a USD Preview Surface shader (PBR)",
        )
            .with_color(Color32::from_rgb(100, 150, 200))
            .with_icon("🌐")
            .with_inputs(vec![
                PortDefinition::required("Stage", DataType::Any)
                    .with_description("USD Stage reference"),
                PortDefinition::required("Path", DataType::String)
                    .with_description("Shader path (e.g., /World/Shaders/Surface)"),
                PortDefinition::optional("Diffuse Color", DataType::Vector3)
                    .with_description("Base color RGB (default: 0.8, 0.8, 0.8)"),
                PortDefinition::optional("Metallic", DataType::Float)
                    .with_description("Metallic factor 0-1 (default: 0.0)"),
                PortDefinition::optional("Roughness", DataType::Float)
                    .with_description("Roughness factor 0-1 (default: 0.5)"),
                PortDefinition::optional("Specular", DataType::Float)
                    .with_description("Specular factor 0-1 (default: 0.5)"),
                PortDefinition::optional("Diffuse Texture", DataType::Any)
                    .with_description("Diffuse texture input"),
                PortDefinition::optional("Normal Texture", DataType::Any)
                    .with_description("Normal map texture input"),
            ])
            .with_outputs(vec![
                PortDefinition::required("Surface", DataType::Any)
                    .with_description("Surface shader output"),
                PortDefinition::required("Stage", DataType::Any)
                    .with_description("Pass-through stage reference"),
            ])
            .with_workspace_compatibility(vec!["3D", "USD"])
            .with_tags(vec!["usd", "3d", "shader", "pbr"])
            .with_processing_cost(ProcessingCost::Medium)
    }
}

impl USDTexture {
    /// How the texture node presents itself to the editor.
    pub fn metadata() -> (m: NodeMetadata)
        ensures
            m@ =~~= (MetadataView {
                node_type: "USD_Texture"@,
                display_name: "USD Texture"@,
                category: seq!["3D"@, "USD"@, "Textures"@],
                description: "Creates a USD Texture node (UsdUVTexture)"@,
                color: Some(Color32 { r: 200, g: 150, b: 50 }),
                icon: Some("🖼️"@),
                inputs: seq![
                    required_port("Stage"@, DataType::Any, "USD Stage reference"@),
                    required_port(
                        "Path"@,
                        DataType::String,
                        "Texture path (e.g., /World/Textures/Diffuse)"@,
                    ),
                    required_port("File"@, DataType::String, "Texture file path"@),
                    optional_port("UV Coordinates"@, DataType::Vector3, "UV coordinate input"@),
                    optional_port(
                        "Wrap S"@,
                        DataType::String,
                        "S wrap mode (repeat, clamp, mirror)"@,
                    ),
                    optional_port(
                        "Wrap T"@,
                        DataType::String,
                        "T wrap mode (repeat, clamp, mirror)"@,
                    ),
                ],
                outputs: seq![
                    required_port("RGB"@, DataType::Vector3, "RGB color output"@),
                    required_port("R"@, DataType::Float, "Red channel output"@),
                    required_port("G"@, DataType::Float, "Green channel output"@),
                    required_port("B"@, DataType::Float, "Blue channel output"@),
                    required_port("A"@, DataType::Float, "Alpha channel output"@),
                    required_port("Stage"@, DataType::Any, "Pass-through stage reference"@),
                ],
                tags: seq!["usd"@, "3d"@, "texture"@, "uv"@],
                processing_cost: Some(ProcessingCost::Low),
                workspace_compatibility: seq!["3D"@, "USD"@],
                panel_type: None,
            }),
    {
        NodeMetadata::new(
            "USD_Texture",
            "USD Texture",
            vec!["3D", "USD", "Textures"],
            "Creates a USD Texture node (UsdUVTexture)",
        )
            .with_color(Color32::from_rgb(200, 150, 50))
            .with_icon("🖼️")
            .with_inputs(vec![
                PortDefinition::required("Stage", DataType::Any)
                    .with_description("USD Stage reference"),
                PortDefinition::required("Path", DataType::String)
                    .with_description("Texture path (e.g., /World/Textures/Diffuse)"),
                PortDefinition::required("File", DataType::String)
                    .with_description("Texture file path"),
                PortDefinition::optional("UV Coordinates", DataType::Vector3)
                    .with_description("UV coordinate input"),
                PortDefinition::optional("Wrap S", DataType::String)
                    .with_description("S wrap mode (repeat, clamp, mirror)"),
                PortDefinition::optional("Wrap T", DataType::String)
                    .with_description("T wrap mode (repeat, clamp, mirror)"),
            ])
            .with_outputs(vec![
                PortDefinition::required("RGB", DataType::Vector3)
                    .with_description("RGB color output"),
                PortDefinition::required("R", DataType::Float)
                    .with_description("Red channel output"),
                PortDefinition::required("G", DataType::Float)
                    .with_description("Green channel output"),
                PortDefinition::required("B", DataType::Float)
                    .with_description("Blue channel output"),
                PortDefinition::required("A", DataType::Float)
                    .with_description("Alpha channel output"),
                PortDefinition::required("Stage", DataType::Any)
                    .with_description("Pass-through stage reference"),
            ])
            .with_workspace_compatibility(vec!["3D", "USD"])
            .with_tags(vec!["usd", "3d", "texture", "uv"])
            .with_processing_cost(ProcessingCost::Low)
    }
}

impl USDGetAttribute {
    /// How the node that reads an attribute presents itself to the editor.
    pub fn metadata() -> (m: NodeMetadata)
        ensures
            m@ =~~= (MetadataView {
                node_type: "USD_GetAttribute"@,
                display_name: "Get Attribute"@,
                category: seq!["3D"@, "USD"@, "Attributes"@],
                description: "Gets an attribute value from a USD prim"@,
                color: Some(Color32 { r: 200, g: 150, b: 100 }),
                icon: Some("📋"@),
                inputs: seq![
                    required_port("Prim"@, DataType::Any, "USD Prim to read from"@),
                    required_port(
                        "Attribute"@,
                        DataType::String,
                        "Attribute name (e.g., 'xformOp:translate')"@,
                    ),
                    optional_port("Time"@, DataType::Float, "Time code for animated attributes"@),
                ],
                outputs: seq![
                    required_port("Value"@, DataType::Any, "Attribute value"@),
                    required_port("Type"@, DataType::String, "Attribute type name"@),
                ],
                tags: seq!["usd"@, "3d"@, "attribute"@, "read"@],
                processing_cost: Some(ProcessingCost::Low),
                workspace_compatibility: seq!["3D"@, "USD"@],
                panel_type: None,
            }),
    {
        NodeMetadata::new(
            "USD_GetAttribute",
            "Get Attribute",
            vec!["3D", "USD", "Attributes"],
            "Gets an attribute value from a USD prim",
        )
            .with_color(Color32::from_rgb(200, 150, 100))
            .with_icon("📋")
            .with_inputs(vec![
                PortDefinition::required("Prim", DataType::Any)
                    .with_description("USD Prim to read from"),
                PortDefinition::required("Attribute", DataType::String)
                    .with_description("Attribute name (e.g., 'xformOp:translate')"),
                PortDefinition::optional("Time", DataType::Float)
                    .with_description("Time code for animated attributes"),
            ])
            .with_outputs(vec![
                PortDefinition::required("Value", DataType::Any)
                    .with_description("Attribute value"),
                PortDefinition::required("Type", DataType::String)
                    .with_description("Attribute type name"),
            ])
            .with_workspace_compatibility(vec!["3D", "USD"])
            .with_tags(vec!["usd", "3d", "attribute", "read"])
            .with_processing_cost(ProcessingCost::Low)
    }
}

impl USDSetAttribute {
    /// How the node that writes an attribute presents itself to the editor.
    pub fn metadata() -> (m: NodeMetadata)
        ensures
            m@ =~~= (MetadataView {
                node_type: "USD_SetAttribute"@,
                display_name: "Set Attribute"@,
                category: seq!["3D"@, "USD"@, "Attributes"@],
                description: "Sets an attribute value on a USD prim"@,
                color: Some(Color32 { r: 200, g: 150, b: 100 }),
                icon: Some("⚙️"@),
                inputs: seq![
                    required_port("Prim"@, DataType::Any, "USD Prim to modify"@),
                    required_port(
                        "Attribute"@,
                        DataType::String,
                        "Attribute name (e.g., 'xformOp:translate')"@,
                    ),
                    required_port("Value"@, DataType::Any, "Attribute value"@),
                    optional_port("Time"@, DataType::Float, "Time code for animated attributes"@),
                ],
                outputs: seq![
                    required_port("Prim"@, DataType::Any, "Modified USD Prim"@),
                ],
                tags: seq!["usd"@, "3d"@, "attribute"@, "modify"@],
                processing_cost: Some(ProcessingCost::Low),
                workspace_compatibility: seq!["3D"@, "USD"@],
                panel_type: None,
            }),
    {
        NodeMetadata::new(
            "USD_SetAttribute",
            "Set Attribute",
            vec!["3D", "USD", "Attributes"],
            "Sets an attribute value on a USD prim",
        )
            .with_color(Color32::from_rgb(200, 150, 100))
            .with_icon("⚙️")
            .with_inputs(vec![
                PortDefinition::required("Prim", DataType::Any)
                    .with_description("USD Prim to modify"),
                PortDefinition::required("Attribute", DataType::String)
                    .with_description("Attribute name (e.g., 'xformOp:translate')"),
                PortDefinition::required("Value", DataType::Any)
                    .with_description("Attribute value"),
                PortDefinition::optional("Time", DataType::Float)
                    .with_description("Time code for animated attributes"),
            ])
            .with_outputs(vec![
                PortDefinition::required("Prim", DataType::Any)
                    .with_description("Modified USD Prim"),
            ])
            .with_workspace_compatibility(vec!["3D", "USD"])
            .with_tags(vec!["usd", "3d", "attribute", "modify"])
            .with_processing_cost(ProcessingCost::Low)
    }
}

} // verus!
