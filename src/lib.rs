//! A Pomodoro session clock: focus and break intervals, the four-session
//! cadence of short and long breaks, and the values a front end shows.

pub mod phase;
pub mod clock;
pub mod config;
pub mod display;
pub mod laws;
pub mod schedule;
