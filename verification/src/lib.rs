//! A verified core for a small 2-D sprite demo: a repeating animation timer,
//! a sprite-sheet atlas with its registry, an asset-handle store, and a scene
//! tree of entities whose animated tile index is advanced once per frame.
//!
//! Rendering, windowing and the per-frame scheduler belong to a host engine;
//! this library holds the decisions such an engine runs: what the scene
//! contains, how the timer accumulates elapsed time, and how the displayed
//! tile index cycles.

pub mod animation;
pub mod assets;
pub mod atlas;
pub mod scene;
pub mod timer;
