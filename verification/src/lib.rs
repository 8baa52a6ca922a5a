//! A steering model for a vehicle drawn on a 2D canvas.
//!
//! The model holds the current heading of a steerable box together with the
//! turn input that the player currently applies. A host event loop drives it:
//! it reports the clock once per tick, forwards key presses and releases, and
//! reads the heading back when it draws. All angles are kept in microradians
//! and all times in milliseconds, so every step of the update rule is exact
//! integer arithmetic.

pub mod geometry;
pub mod laws;
pub mod model;
