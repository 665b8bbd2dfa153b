//! A crash-style betting game engine.
//!
//! A player converts fiat into a simulated cryptocurrency position at a
//! base price, watches the position's value grow with a time-based
//! multiplier while the simulated price moves, and may cash out at any
//! moment. All money-like quantities (fiat balances, asset quantities,
//! prices, multipliers) are fixed-point numbers: integers counted in
//! millionths of a unit, so that every computation is exact and verified.

pub mod crypto;
pub mod fixed;
pub mod game;
pub mod session;
