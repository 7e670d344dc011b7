//! A small 2D arcade flight model: a player-controlled glider subject to
//! simplified aerodynamic forces, flying through a scrolling world of circular
//! pickup hoops that grant fuel, score, or velocity boosts, and dying on
//! ground impact.
//!
//! All quantities are fixed-point integers: one world unit is `SCALE`
//! sub-units, and angles are measured in thousandths of a radian. Rendering,
//! asset handling and input polling are external collaborators; this crate
//! holds the per-frame physics, the hoop lifecycle, the terminal/reset state
//! machine, and the deterministic world seeding.

pub mod fixed;
pub mod rng;
pub mod trig;
pub mod utils;
pub mod aircraft;
pub mod hoops;
pub mod game;
