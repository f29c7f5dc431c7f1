//! Per-frame simulation core of a 2D arcade shooter: axis-aligned geometry,
//! entity state variants (player, enemy, bullet), a pooled tick engine with
//! input / update / spawn-merge / collision / reap phases, and a factory that
//! builds entities from level attributes.

pub mod attributes;
pub mod engine;
pub mod factory;
pub mod game_object;
pub mod geometry;
pub mod layer;
pub mod map_file;
pub mod scene;
pub mod states;
pub mod textures;
pub mod types;
