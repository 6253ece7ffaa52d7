//! Core logic of a small single-screen arcade game: a glider pulled down by
//! gravity must flap through gaps in a series of walls, scoring one point per
//! wall passed.
//!
//! World coordinates and velocities are fixed-point integers in thousandths of
//! a screen cell, so every physics step is exact integer arithmetic. Each
//! frame advances the world by the measured elapsed milliseconds (variable
//! step). Drawing and key polling live outside this crate; the game hands the
//! host a plain description of what to draw each frame.

pub mod units;
pub mod player;
pub mod obstacle;
pub mod state;
