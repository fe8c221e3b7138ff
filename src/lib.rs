//! A two-player Pong simulation: paddle control, ball physics, collision
//! resolution, scoring and the match lifecycle, as a verified library.
//!
//! All lengths are integers counted in thousandths of a world unit, and all
//! speeds are such lengths per second. The simulation advances in fixed ticks
//! of `1 / TICKS_PER_SECOND` seconds.
pub mod constants;
pub mod geometry;
pub mod collision;
pub mod velocity;
pub mod collider;
pub mod paddle;
pub mod score;
pub mod ball;
pub mod wall;
pub mod bounding_box;
pub mod systems;
pub mod game;
pub mod states;
pub mod shake;
