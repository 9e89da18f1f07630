//! Verified core of a terminal 3D renderer: render settings and their
//! resolution, configuration parsing, the viewer's key handling and run-time
//! state machines, animation clip selection, PMX rig metadata, and the
//! rasterisation and inline-image framing of terminal frames.

pub mod scene;
pub mod text;
pub mod config;
pub mod options;
pub mod resolve;
pub mod state;
pub mod controls;
pub mod animation;
pub mod pmx_rig;
pub mod physics;
pub mod encoding;
pub mod graphics;
pub mod gpu;
pub mod domain;
pub mod material_stats;
pub mod scene_stats;
