//! A grid-movement controller for a snake's head: arrow keys become direction
//! messages, messages set the heading, and every fixed step moves the head by
//! one cell along its heading.

pub mod config;
pub mod direction;
pub mod input;
pub mod laws;
pub mod position;
pub mod simulation;
pub mod snake;
pub mod systems;
