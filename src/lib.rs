//! A countdown timer driven by a control loop that takes pause, resume and
//! cancel commands from a key listener.
pub mod command;
pub mod config;
pub mod format;
pub mod laws;
pub mod timer;

pub use command::{command_for_key, UserInput};
pub use timer::{Args, LoopAction, Timer, TimerState};
pub use config::{Cli, Config};
pub use format::format_duration;
