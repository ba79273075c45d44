//! The settings the clock starts from: the configuration with its defaults, and the
//! command line.

use vstd::prelude::*;

use crate::duration::Duration;
use crate::types::{AppMode, BlinkInterval};
use crate::world::texts;

verus! {

/// The settings, from the defaults, the configuration file and the command line.
#[derive(Debug)]
pub struct AppConfig {
    pub blink: Option<BlinkInterval>,
    /// The span the countdown timer is set to (`default_timer` in the file).
    pub timer: Duration,
    pub timezone: Option<String>,
    pub world_clocks: Vec<String>,
    pub daylight_start: u32,
    pub daylight_end: u32,
    /// The panel to start in (`mode` in the file).
    pub app_mode: AppMode,
}

/// The zones of the world clock when none are configured.
pub open spec fn default_world_clocks() -> Seq<Seq<char>> {
    seq!["America/New_York"@, "Europe/London"@, "Asia/Tokyo"@]
}

impl Default for AppConfig {
    /// No blinking, a 25-minute timer, the machine's zone, New York, London and Tokyo on the
    /// world clock, daylight from 6 to 18, the clock panel.
    fn default() -> (c: Self)
        ensures
            c.blink is None,
            c.timer@ == 1_500_000_000_000,
            c.timezone is None,
            texts(c.world_clocks@) == default_world_clocks(),
            c.daylight_start == 6,
            c.daylight_end == 18,
            c.app_mode == AppMode::Clock,
    {
        let world_clocks = vec![
            "America/New_York".to_owned(),
            "Europe/London".to_owned(),
            "Asia/Tokyo".to_owned(),
        ];
        assert(texts(world_clocks@) =~= default_world_clocks());
        AppConfig {
            blink: None,
            timer: Duration::from_secs(25 * 60),
            timezone: None,
            world_clocks,
            daylight_start: 6,
            daylight_end: 18,
            app_mode: AppMode::Clock,
        }
    }
}

/// The subcommands.
#[derive(Debug, Clone, Copy, PartialEq, Eq, Structural)]
pub enum Commands {
    /// Validate the configuration file and exit.
    Validate,
}

/// The command line, as parsed.
#[derive(Debug)]
pub struct Cli {
    pub command: Option<Commands>,
    pub blink: Option<BlinkInterval>,
    /// `-t`/`--timer` with its span (`default_timer` when merged into the settings).
    pub timer: Option<Duration>,
    pub timezone: Option<String>,
    pub mode: Option<AppMode>,
}

impl Cli {
    /// The command line as the clock takes it: a timer given on it starts the clock in
    /// the timer panel, whatever mode was asked for.
    pub fn load(parsed: Cli) -> (cli: Cli)
        ensures
            cli.command == parsed.command,
            cli.blink == parsed.blink,
            cli.timer == parsed.timer,
            cli.timezone == parsed.timezone,
            cli.mode == (if parsed.timer is Some {
                Some(AppMode::Countdown)
            } else {
                parsed.mode
            }),
    {
        let mut cli_args = parsed;
        if cli_args.timer.is_some() {
            cli_args.mode = Some(AppMode::Countdown);
        }
        cli_args
    }
}

} // verus!
