//! A pomodoro timer engine: the cycle of focus periods, breaks and rests,
//! the countdown that drives it, and the one cancellable tick that stands
//! for the clock.

pub mod config;
pub mod display;
pub mod laws;
pub mod model;
pub mod span;
pub mod timer;
