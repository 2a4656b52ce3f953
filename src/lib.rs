//! Movement and collision core of a side-scrolling rain game: a kinematic
//! player controller, axis-aligned collision against static level geometry,
//! a falling-drop particle simulation, a deflecting shield and the damage
//! bookkeeping that ties them together.
//!
//! All quantities are fixed-point integers (see [`units`]), so that every
//! step of the simulation has an exact, checkable meaning.

pub mod units;
pub mod geometry;
pub mod color;
pub mod velocity;
pub mod level;
pub mod levels;
pub mod player;
mod random;
pub mod rain;
pub mod health;
pub mod shield;
pub mod world;
