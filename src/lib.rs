//! Core of a small arcade simulation: a player moves inside a bounded arena,
//! avoids hazards and collects pickups.
//!
//! All lengths are integers in micro-pixels (see [`geometry::PIXEL`]); a
//! direction component is given in thousandths of the unit length, a speed in
//! pixels per second and a time step in milliseconds, so that the displacement
//! `direction * speed * dt` is again a whole number of micro-pixels.
//!
//! Each tick runs, in this fixed order: the spawn timers, movement,
//! confinement, collision, spawning, and the score and phase updates that a
//! game-over event brings (see [`sim::Simulation::tick`]).
pub mod collision;
pub mod entity;
pub mod geometry;
pub mod laws;
pub mod motion;
pub mod score;
pub mod sim;
pub mod spawn;
pub mod state;
