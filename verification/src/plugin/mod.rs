//! The plugin as the editor loads it: the nodes it registers and the panels
//! they show.

pub mod factories;
pub mod load_stage_node;
pub mod viewport_node;
