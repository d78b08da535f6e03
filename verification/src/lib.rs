//! A pomodoro timer engine: a countdown that alternates between a focus
//! interval and a break interval, driven by timestamps that the host supplies.
//!
//! All times are whole nanoseconds. A timestamp counts from an origin that the
//! host chooses once and keeps; only differences between timestamps matter.

pub mod display;
pub mod laws;
pub mod model;
pub mod notify;
pub mod pom;

pub use display::{DisplayMode, Face, Fraction};
pub use model::{Notify, Session, TimerState};
pub use model::{BREAK_TIME, MAX_MINUTES, NANOS_PER_MINUTE, NANOS_PER_SEC, POMODORO_TIME};
pub use pom::Pom;
