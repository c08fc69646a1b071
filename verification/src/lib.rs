//! Decomposition of a count of seconds into hours, minutes and seconds,
//! with zero-padded `HH:MM:SS` formatting.

pub mod arith;
pub mod digits;
pub mod duration;

pub use arith::divmod;
pub use arith::divmod_i64;
pub use duration::TimeHms;
pub use duration::TimeHmsError;
