//! The nodes that the plugin contributes to the graph: what each of them does
//! to the scene repository when it runs, how it presents itself to the
//! editor, and what its panel shows.

pub mod data;
pub mod geometry_nodes;
pub mod interface;
pub mod lighting_nodes;
pub mod load_stage;
pub mod metadata;
pub mod naming;
pub mod prim_nodes;
pub mod shading_nodes;
pub mod stage_nodes;
