//! Server-side core of a "crash" wagering round.
//!
//! A round raises a payout multiplier from 1.0 in fixed steps until it reaches
//! a crash point drawn at the start of the round; a player who cashes out
//! before that is paid the bet times the multiplier of that moment.
//!
//! All amounts are fixed-point integers: a multiplier is counted in units of
//! one ten-thousandth (`MULTIPLIER_SCALE` units make 1.0), so every step of the
//! round is exact.
pub mod crash_point;
pub mod engine;

pub use crash_point::{
    crash_point, HOUSE_EDGE_FACTOR, MAX_CRASH_POINT, MULTIPLIER_SCALE, SAMPLE_DENOMINATOR,
    TICK_STEP,
};
pub use engine::{Game, GameError};
