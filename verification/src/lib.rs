//! # Slots from Hell
//!
//! The rules of a 2D horror game: the map of the house (rooms, walls with their door gaps,
//! and the pathfinding grid the walls block), the overlap test between boxes, the game and
//! menu state machines, the security cameras, and how the player and the enemies move.
//! Lengths are whole pixels.

pub mod enemy;
pub mod entity;
pub mod game_menu;
pub mod geometry;
pub mod grid;
pub mod player;
pub mod security_camera;
pub mod tilemap;
pub mod world_map;
