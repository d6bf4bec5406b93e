//! Simulation kernel of a scrolling river-navigation arcade game.
//!
//! The world is advanced one tick at a time by event handlers: each handler
//! pairs a trigger with an effect on the world, and effects may stage further
//! handlers and timers for the ticks to come.
pub mod canvas;
pub mod drawable;
pub mod entities;
pub mod game;
pub mod restorable;
mod sources;
pub mod world;
