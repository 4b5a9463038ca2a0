//! A two-party rock-paper-scissors engine with a turn-based session flow and
//! a single-call betting flow against a pseudo-randomly drawn house move.

pub mod contract;
pub mod error;
pub mod games;
pub mod msg;
pub mod state;
pub mod utils;
