//! Tile collision and player motion for a 2D platformer, in exact fixed-point
//! arithmetic.
//!
//! Positions and sizes are whole numbers of position units, `units::UNIT` of
//! them to a tile edge; time is counted in ticks and a velocity is a number of
//! position units per tick, so a displacement is the exact product of velocity
//! and elapsed ticks.

pub mod easing;
pub mod jump;
pub mod map;
pub mod player;
pub mod rect;
pub mod resources;
pub mod units;
pub mod video;
