//! The rules of a small side-scrolling road race, with every rule proved.
//!
//! A player sprite dodges obstacles that scroll from right to left, loses one
//! point of health per collision, and loses the run when health reaches zero
//! or when it leaves the road. The crate holds the whole simulation: the scene
//! that is set up once, and the update that runs once per rendered frame. A
//! host program renders the scene, polls the keyboard, reports collisions and
//! plays the sounds that each frame's report asks for.
//!
//! Lengths are whole millionths of a screen unit and times are whole
//! microseconds, so a speed in units per second moves a sprite by
//! `speed * delta` with nothing rounded.

pub mod chance;
pub mod collision;
pub mod config;
pub mod laws;
pub mod player;
pub mod scenery;
pub mod span;
pub mod text;
pub mod timer;
pub mod world;
