//! Core of a light-cycle arcade game: a vehicle moves on an integer grid,
//! leaves a bounded trail of wall segments behind it and dies when it runs
//! into a wall. Rendering, physics and input are left to the caller, who
//! hands the library plain values and applies what it returns.
pub mod collision;
pub mod game;
pub mod geometry;
pub mod motion;
pub mod trail;
