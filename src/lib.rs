//! A stopwatch that accumulates running time over start/stop cycles, with a
//! lap ("split") timer, measured on the monotonic clock.
//!
//! Every operation that reads the clock has a counterpart ending in `_at`
//! that takes the reading as an argument: the contracts of those are exact,
//! and a test can drive them without waiting for real time to pass.
mod clock;
pub mod display;
pub mod duration;
pub mod laws;
pub mod state;
pub mod stopwatch;

pub use display::format_ms;
pub use duration::Duration;
pub use state::WatchState;
pub use stopwatch::Stopwatch;
