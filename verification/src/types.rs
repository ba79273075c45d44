//! The small enumerations shared by the modes of the clock.

use vstd::prelude::*;

verus! {

/// How often the big clock blinks to mark the time.
#[derive(Debug, Clone, Copy, PartialEq, Eq, Structural)]
pub enum BlinkInterval {
    Hour,
    Half,
    Quarter,
    Minute,
}

impl Default for BlinkInterval {
    fn default() -> (b: Self)
        ensures
            b == BlinkInterval::Hour,
    {
        BlinkInterval::Hour
    }
}

/// The panel the application shows.
#[derive(Debug, Clone, Copy, PartialEq, Eq, Structural)]
pub enum AppMode {
    Clock,
    Countdown,
    Stopwatch,
    World,
}

impl Default for AppMode {
    fn default() -> (m: Self)
        ensures
            m == AppMode::Clock,
    {
        AppMode::Clock
    }
}

/// The mode asked for on the command line.
#[derive(Debug, Clone, Copy, PartialEq, Eq, Structural)]
pub enum ModeArg {
    Clock,
    Timer,
    Stopwatch,
    World,
}

impl ModeArg {
    /// The panel a mode on the command line opens: `timer` opens the countdown timer.
    pub open spec fn spec_panel(self) -> AppMode {
        match self {
            ModeArg::Clock => AppMode::Clock,
            ModeArg::Timer => AppMode::Countdown,
            ModeArg::Stopwatch => AppMode::Stopwatch,
            ModeArg::World => AppMode::World,
        }
    }

    /// The panel this mode opens.
    pub fn panel(self) -> (m: AppMode)
        ensures
            m == self.spec_panel(),
    {
        match self {
            ModeArg::Clock => AppMode::Clock,
            ModeArg::Timer => AppMode::Countdown,
            ModeArg::Stopwatch => AppMode::Stopwatch,
            ModeArg::World => AppMode::World,
        }
    }

    /// The mode that opens a panel.
    pub fn for_panel(m: AppMode) -> (a: ModeArg)
        ensures
            a.spec_panel() == m,
    {
        match m {
            AppMode::Clock => ModeArg::Clock,
            AppMode::Countdown => ModeArg::Timer,
            AppMode::Stopwatch => ModeArg::Stopwatch,
            AppMode::World => ModeArg::World,
        }
    }
}

impl Default for ModeArg {
    fn default() -> (m: Self)
        ensures
            m == ModeArg::Clock,
    {
        ModeArg::Clock
    }
}

/// The state of the countdown timer.
#[derive(Debug, Clone, Copy, PartialEq, Eq, Structural)]
pub enum TimerState {
    Running,
    Paused,
    Finished,
}

impl Default for TimerState {
    fn default() -> (s: Self)
        ensures
            s == TimerState::Paused,
    {
        TimerState::Paused
    }
}

/// The state of the stopwatch.
#[derive(Debug, Clone, Copy, PartialEq, Eq, Structural)]
pub enum StopwatchState {
    Idle,
    Running,
    Paused,
}

impl Default for StopwatchState {
    fn default() -> (s: Self)
        ensures
            s == StopwatchState::Idle,
    {
        StopwatchState::Idle
    }
}

} // verus!
