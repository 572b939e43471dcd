//! A verified core for a two-paddle pong game.
//!
//! All geometry lives on an integer grid of milliunits: one screen pixel is
//! 1000 milliunits, velocities are milliunits per millisecond, and elapsed
//! time is counted in milliseconds.  Every frame-update rule — paddle motion,
//! ball motion, paddle and wall collisions, scoring — is specified exactly
//! and proved.  A thin unverified shell owns the window, the clock and the
//! drawing, and feeds plain values into this crate.

pub mod game;
pub mod geom;
pub mod laws;
