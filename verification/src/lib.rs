//! A terminal clock with a countdown timer, a stopwatch with laps and a world clock:
//! the state machines, the texts it shows and the time-zone rules, with their contracts.

pub mod duration;
pub mod types;
pub mod text;
pub mod timer;
pub mod stopwatch;
pub mod zones;
pub mod clocks;
pub mod display;
pub mod world;
pub mod help;
pub mod config;
pub mod appstate;
pub mod laws;

pub use duration::Duration;
pub use stopwatch::StopwatchModeState;
pub use text::format_stopwatch_duration;
pub use timer::{TimerModeState, TimerTickResult};
pub use types::{AppMode, BlinkInterval, ModeArg, StopwatchState, TimerState};
pub use zones::{resolve_timezone, tz_city_name};
