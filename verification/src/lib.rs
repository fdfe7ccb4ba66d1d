//! Core of a turn-based dungeon-crawler simulation: an entity/component
//! store, a procedural map generator, field-of-view and pathfinding over
//! the grid, melee combat and damage resolution, an inventory system,
//! the turn state machine, and a persistence snapshot of the whole store.
pub mod components;
pub mod fov;
pub mod gamelog;
pub mod map;
pub mod menu;
pub mod pathfinding;
pub mod player;
pub mod random_table;
pub mod rect;
pub mod rng;
pub mod saveload;
pub mod spawner;
pub mod state;
pub mod store;
pub mod system;
pub mod templates;
pub mod text;
