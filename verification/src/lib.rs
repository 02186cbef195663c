//! A foreign-callable facade over the rosu-pp difficulty and performance
//! engine: it accumulates optional score parameters, dispatches a
//! calculation on a parsed beatmap, and flattens the mode-specific result
//! into one flat record whose optional fields are populated exactly where
//! meaningful for that mode.
//!
//! Doubles never appear in the verified library; every scalar the engine
//! produces or consumes is carried as an IEEE-754 bit pattern in a `u64`,
//! and the foreign layer reinterprets the patterns.

pub mod attrs;
pub mod beatmap;
pub mod calculator;
pub mod engine;
pub mod error;
pub mod flatten;
pub mod mode;
pub mod params;
pub mod protocol;

pub use calculator::Calculator;
pub use error::Error;
pub use flatten::CalculateResult;
pub use mode::Mode;
pub use params::ScoreParams;
