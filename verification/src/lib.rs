//! A simulation clock that counts metric time.
//!
//! The clock accumulates elapsed time under a speed multiplier, either
//! continuously or turn by turn, and reads it back as a flat timestamp or as a
//! year / month / week / day / hour / minute / second breakdown in which every
//! unit is a power of ten seconds long.

pub mod clock;
pub mod codec;
pub mod datetime;
pub mod duration;
pub mod laws;
pub mod speed;
pub mod text;
pub mod timestamp;

pub use clock::{ClockMode, ClockState, SimulationClock};
pub use datetime::SimulationDateTime;
pub use duration::SimulationDuration;
pub use speed::ClockSpeed;
pub use timestamp::{SimulationTimestamp, TimestampOutOfRange};
