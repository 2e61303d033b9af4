//! Conway's Game of Life on a bounded grid.
//!
//! The core is the three-valued cell [`state`], the [`grid`] of cells with
//! its detached pattern snapshot, the generation rule with its two edge
//! policies in [`rules`], and the [`compositor`] that stamps patterns and
//! resizes the world. Grids and patterns present themselves as the boards
//! of [`board`], over which every contract is stated.
//!
//! Around the core stand the parts of a game that decide without touching a
//! device: the player's interaction in [`gameplay`], the prefab catalog in
//! [`prefabs`] with its stored layout in [`simple_serialization`], the key
//! and button bookkeeping in [`user_input`], the renderer's choices in
//! [`rendering`] and [`renderer_errors`], the sound store in
//! [`sound_files`], and the small utilities [`vec2_int`], [`entity`] and
//! [`generational_index`].

pub mod board;
pub mod compositor;
pub mod entity;
pub mod gameplay;
pub mod generational_index;
pub mod grid;
pub mod prefabs;
pub mod renderer_errors;
pub mod rendering;
pub mod rules;
pub mod simple_serialization;
pub mod sound_files;
pub mod state;
pub mod user_input;
pub mod vec2_int;
