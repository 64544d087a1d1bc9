//! A small closed-economy simulation: a population competes with a forest
//! for cleared land and food, one tick at a time, nudged by three player
//! actions. Every quantity is a fixed-point number counted in millionths of
//! a unit (see [`filler::UNIT`]).
pub mod decimal;
pub mod filler;
pub mod world;

pub use filler::{Filler, UNIT};
pub use world::World;
