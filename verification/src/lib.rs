//! The verified core of a small real-time game engine: asset handles, the
//! collision table, actors and cameras, the sprite game objects, the
//! configuration record and the frame bookkeeping of the renderer.

pub mod game_engine;
pub mod kb_assets;
pub mod kb_collision;
pub mod kb_config;
pub mod kb_game_object;
pub mod kb_renderer;
pub mod kb_resource;
pub mod kb_utils;
