//! Verified core of a small Sokoban-style game and of the reflection-driven
//! component inspector that edits it.

pub mod align;
pub mod editor;
pub mod entity;
pub mod game;
pub mod level;
pub mod reflect;
