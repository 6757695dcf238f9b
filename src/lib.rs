//! A first-person kinematic character controller core, in integer units.
//!
//! Units used throughout: time in microseconds, lengths in picometres,
//! angles in picoradians, linear speeds in micrometres per second and
//! turn speeds in microradians per second. A speed multiplied by a frame
//! time in microseconds is then exactly a length (or angle) in pico-units.
pub mod geometry;
pub mod intent;
pub mod controller;
pub mod resolver;
pub mod theorems;
pub mod level;
