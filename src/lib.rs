//! A Pomodoro timer's core: a pausable counter over a monotonic clock, the
//! fixed cycle of work and break phases, and the command-driven state machine
//! that decides when a phase is due and when to raise an alert.
//!
//! Time is a count of milliseconds read from a monotonic clock that the caller
//! owns; every operation that looks at the clock takes the reading as `now`.
pub mod counter;

pub use counter::Counter;
pub mod command;
pub mod session;

pub use command::Command;
pub use session::{PomoConfig, PomodoroMode, PomodoroSession};
pub mod pomodoro;

pub use pomodoro::{clock_parts, pomodoro_alert_message, PomoState, PomoStateMode, PomoView};
