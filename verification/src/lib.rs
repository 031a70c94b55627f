//! Discrete state and bookkeeping of a boids flocking simulation.
//!
//! The steering rules, drawing and input of the simulation work on floating
//! point vectors and live beside this crate; what is kept here is the part of
//! the simulation that is decided by whole numbers and flags: the boundary
//! mode and other discrete settings, the control panel's visibility and the
//! actions it requests, the bounded flight-path history of each boid, and the
//! flock's bookkeeping that keeps one trail per boid.

pub mod config;
pub mod ui;
pub mod trail;
pub mod simulation;
