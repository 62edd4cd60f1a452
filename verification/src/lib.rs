//! USD scene bookkeeping and viewport picking for a node-graph editor.
//!
//! Everything here works on plain values: integers, booleans, strings and
//! vectors of them. Positions, transforms and distances are measured by the
//! caller. Where the library has to compare distances it takes them as
//! ordered integer keys; where it only hands numbers on it carries them by
//! their bit patterns.
//!
//! - `viewport`: what a pick ray is tested against and which hit wins, the
//!   index buffers of the built-in meshes, and the renderer's decisions.
//! - `engine`: the scene repository of stages and prims.
//! - `nodes`: the nodes of the graph, what they do to the repository, how
//!   they present themselves and what their panels show.
//! - `plugin`: the plugin as the editor loads it.
//! - `runtime`: the environment of the bundled USD runtime.
//! - `text`: numerals, prefixes and paths.

pub mod engine;
pub mod nodes;
pub mod plugin;
pub mod runtime;
pub mod text;
pub mod viewport;
