//! A discrete-time simulation of the game of tag on a bounded grid.
//!
//! Agents stand on integer cells of a `width` x `height` field. On every tick
//! each agent picks an action, the actions are applied with clamping to the
//! field, and a proximity rule passes the "it" role from one agent to another.
pub mod geometry;
pub mod agent;
pub mod tag;
pub mod policy;
pub mod screen;
pub mod simulation;
mod random;
