//! Kinematics and collision rules of a dodge game, on whole numbers.
//!
//! Lengths are whole numbers of one length unit and angles whole numbers of
//! ticks (see [`angle`]), so that every rule here is exact. A driver chooses
//! the length unit, turns elapsed time and heading into a displacement, and
//! draws what the rules place.

pub mod angle;
mod chance;
pub mod object;
