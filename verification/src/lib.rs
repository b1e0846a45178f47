//! Replay records for Plumefoil Racing runs and the rules by which the
//! headless validator certifies them.
//!
//! Input values that the game records as floating-point numbers are held here
//! by their IEEE-754 bit patterns, so that a replay is carried, stored and read
//! back without any change to a single bit.

pub mod flight;
pub mod replay;
pub mod validation;
pub mod wire;
