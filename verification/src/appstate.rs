//! The state of the whole clock: the panel shown, the timer, the stopwatch, the zone and
//! the world clock, the help menu, and how a tick of time and a key press change it.

use vstd::prelude::*;

use chrono_tz::Tz;
use std::time::Instant;

use crate::clocks::{
    duration_since, epoch_offset, epoch_reading, parts, instant_gap, instant_now, utc_now, wall_time, wall_time_in,
    Timestamp, WallTime,
};
use crate::config::{default_world_clocks, AppConfig};
use crate::duration::{max_nanos, Duration};
use crate::help::{HELP_ROWS, STOPWATCH_SECTION, TIMER_SECTION};
use crate::stopwatch::{StopwatchModeState, StopwatchView};
use crate::timer::{TimerModeState, TimerTickResult, TimerView};
use crate::types::{AppMode, BlinkInterval};
use crate::world::{copy_texts, texts};
use crate::zones::{resolve_timezone, resolved_zone, tz_from_name, tz_name, utc_zone};

verus! {

/// The settings of the clock panel.
#[derive(Debug)]
pub struct ClockModeState {
    blink: Option<BlinkInterval>,
}

impl View for ClockModeState {
    type V = Option<BlinkInterval>;

    closed spec fn view(&self) -> Option<BlinkInterval> {
        self.blink
    }
}

impl Default for ClockModeState {
    /// No blinking.
    fn default() -> (c: Self)
        ensures
            c@ is None,
    {
        ClockModeState { blink: None }
    }
}

impl ClockModeState {
    /// When the clock blinks, if at all.
    pub fn blink(&self) -> (b: &Option<BlinkInterval>)
        ensures
            *b == self@,
    {
        &self.blink
    }
}

/// What the keys of the timer panel do to the timer.
#[derive(Debug, Clone, Copy, PartialEq, Eq, Structural)]
pub enum TimerAction {
    Toggle,
    Reset,
}

/// What the keys of the stopwatch panel do to the stopwatch.
#[derive(Debug, Clone, Copy, PartialEq, Eq, Structural)]
pub enum StopwatchAction {
    Toggle,
    Reset,
    RecordLap,
    ToggleOverlay,
    ScrollUp,
    ScrollDown,
}

/// A key, as far as the clock tells keys apart.
#[derive(Debug, Clone, Copy, PartialEq, Eq, Structural)]
pub enum Key {
    Char(char),
    Up,
    Down,
    Enter,
    Esc,
    Other,
}

/// A key press, with whether Control was held.
#[derive(Debug, Clone, Copy, PartialEq, Eq, Structural)]
pub struct KeyPress {
    pub key: Key,
    pub ctrl: bool,
}

/// What the event loop does after a key press.
#[derive(Debug, Clone, Copy, PartialEq, Eq, Structural)]
pub enum KeyOutcome {
    /// Leave the application.
    Quit,
    /// Wait for the next event without ticking or drawing.
    Skip,
    /// Tick the clocks and draw.
    Continue,
}

/// The state of the clock as a mathematical value.
pub ghost struct AppView {
    pub active_mode: AppMode,
    pub blink: Option<BlinkInterval>,
    pub timer: TimerView,
    pub stopwatch: StopwatchView,
    pub active_tz: Tz,
    pub world_clocks: Seq<Seq<char>>,
    pub daylight_start: u32,
    pub daylight_end: u32,
    pub last_tick: Instant,
    pub now: Timestamp,
    pub show_help: bool,
    pub help_scroll_index: nat,
}

impl AppView {
    /// `?`: opens or closes the help menu; it opens at the section of the current panel.
    pub open spec fn help_toggled(self) -> AppView {
        if self.show_help {
            AppView { show_help: false, ..self }
        } else {
            AppView {
                show_help: true,
                help_scroll_index: match self.active_mode {
                    AppMode::Clock | AppMode::World => 0,
                    AppMode::Countdown => (TIMER_SECTION + 1) as nat,
                    AppMode::Stopwatch => (STOPWATCH_SECTION + 1) as nat,
                },
                ..self
            }
        }
    }

    /// One row up in the help menu, unless at the top.
    pub open spec fn help_up(self) -> AppView {
        if self.help_scroll_index > 0 {
            AppView { help_scroll_index: (self.help_scroll_index - 1) as nat, ..self }
        } else {
            self
        }
    }

    /// One row down in the help menu, unless at the last row.
    pub open spec fn help_down(self) -> AppView {
        if self.help_scroll_index < HELP_ROWS - 1 {
            AppView { help_scroll_index: self.help_scroll_index + 1, ..self }
        } else {
            self
        }
    }

    /// The clock after `delta` nanoseconds, read at `instant` and `clock`: the timer and the
    /// stopwatch count, and a timer that runs out brings up the timer panel.
    pub open spec fn advanced(self, delta: nat, instant: Instant, clock: Timestamp) -> AppView {
        AppView {
            timer: self.timer.ticked(delta),
            stopwatch: self.stopwatch.ticked(delta),
            active_mode: if self.timer.expires_after(delta) {
                AppMode::Countdown
            } else {
                self.active_mode
            },
            last_tick: instant,
            now: clock,
            ..self
        }
    }

    /// Whether the stopwatch can count `delta` more nanoseconds.
    pub open spec fn can_advance(self, delta: nat) -> bool {
        self.stopwatch.is_running() ==> self.stopwatch.elapsed + delta <= max_nanos()
    }

    pub open spec fn timer_acted(self, action: TimerAction) -> AppView {
        AppView {
            timer: match action {
                TimerAction::Toggle => self.timer.toggled(),
                TimerAction::Reset => self.timer.restarted(),
            },
            ..self
        }
    }

    pub open spec fn stopwatch_acted(self, action: StopwatchAction) -> AppView {
        AppView {
            stopwatch: match action {
                StopwatchAction::Toggle => self.stopwatch.toggled(),
                StopwatchAction::Reset => self.stopwatch.reset_to(),
                StopwatchAction::RecordLap => self.stopwatch.lapped(),
                StopwatchAction::ToggleOverlay => self.stopwatch.overlay_toggled(),
                StopwatchAction::ScrollUp => self.stopwatch.scrolled_up(),
                StopwatchAction::ScrollDown => self.stopwatch.scrolled_down(),
            },
            ..self
        }
    }

    /// Whether a key press quits: `q`, or Control and `c`.
    pub open spec fn quits(k: KeyPress) -> bool {
        k.key == Key::Char('q') || (k.key == Key::Char('c') && k.ctrl)
    }

    /// What a key does in the open help menu: up and down scroll, Esc, Enter and space close it.
    pub open spec fn help_key(self, k: KeyPress) -> AppView {
        if k.key == Key::Up || k.key == Key::Char('k') {
            self.help_up()
        } else if k.key == Key::Down || k.key == Key::Char('j') {
            self.help_down()
        } else if k.key == Key::Esc || k.key == Key::Enter || k.key == Key::Char(' ') {
            self.help_toggled()
        } else {
            self
        }
    }

    /// What a key does in the open lap overlay: up and down scroll, Enter and space close it.
    pub open spec fn overlay_key(self, k: KeyPress) -> AppView {
        if k.key == Key::Up || k.key == Key::Char('k') {
            self.stopwatch_acted(StopwatchAction::ScrollUp)
        } else if k.key == Key::Down || k.key == Key::Char('j') {
            self.stopwatch_acted(StopwatchAction::ScrollDown)
        } else if k.key == Key::Enter || k.key == Key::Char(' ') {
            self.stopwatch_acted(StopwatchAction::ToggleOverlay)
        } else {
            self
        }
    }

    /// What the keys of the current panel do: space and `r` for the timer; Enter, space,
    /// `r` and `l` for the stopwatch.
    pub open spec fn panel_key(self, k: KeyPress) -> AppView {
        match self.active_mode {
            AppMode::Countdown => if k.key == Key::Char(' ') {
                self.timer_acted(TimerAction::Toggle)
            } else if k.key == Key::Char('r') {
                self.timer_acted(TimerAction::Reset)
            } else {
                self
            },
            AppMode::Stopwatch => if k.key == Key::Enter {
                self.stopwatch_acted(StopwatchAction::ToggleOverlay)
            } else if k.key == Key::Char(' ') {
                self.stopwatch_acted(StopwatchAction::Toggle)
            } else if k.key == Key::Char('r') {
                self.stopwatch_acted(StopwatchAction::Reset)
            } else if k.key == Key::Char('l') {
                self.stopwatch_acted(StopwatchAction::RecordLap)
            } else {
                self
            },
            _ => self,
        }
    }

    /// The keys `1` to `4` switch to the clock, timer, stopwatch and world panels.
    pub open spec fn mode_key(self, k: KeyPress) -> AppView {
        if k.key == Key::Char('1') {
            AppView { active_mode: AppMode::Clock, ..self }
        } else if k.key == Key::Char('2') {
            AppView { active_mode: AppMode::Countdown, ..self }
        } else if k.key == Key::Char('3') {
            AppView { active_mode: AppMode::Stopwatch, ..self }
        } else if k.key == Key::Char('4') {
            AppView { active_mode: AppMode::World, ..self }
        } else {
            self
        }
    }

    /// Whether the lap overlay holds the keys: it is open in the stopwatch panel.
    pub open spec fn overlay_holds_keys(self) -> bool {
        self.active_mode == AppMode::Stopwatch && self.stopwatch.overlay_open
    }

    /// The state after a key press.
    pub open spec fn after_key(self, k: KeyPress) -> AppView {
        if AppView::quits(k) {
            self
        } else if k.key == Key::Char('?') {
            self.help_toggled()
        } else if self.show_help {
            self.help_key(k)
        } else if self.overlay_holds_keys() {
            self.overlay_key(k)
        } else {
            self.panel_key(k).mode_key(k)
        }
    }

    /// What the event loop does after a key press: quit, wait for the next event (after
    /// `?`, and while the help menu or the lap overlay holds the keys), or tick and draw.
    pub open spec fn key_outcome(self, k: KeyPress) -> KeyOutcome {
        if AppView::quits(k) {
            KeyOutcome::Quit
        } else if k.key == Key::Char('?') || self.show_help || self.overlay_holds_keys() {
            KeyOutcome::Skip
        } else {
            KeyOutcome::Continue
        }
    }
}

/// Whether `t` is what the clock reads at some reading of the system clock: that moment,
/// or 1970-01-01 00:00 UTC where the system clock gives no moment `chrono` represents.
pub open spec fn read_from_clock(t: Timestamp) -> bool {
    exists|clock: std::time::SystemTime| match #[trigger] epoch_reading(epoch_offset(clock)) {
        Some(p) => p == (t.spec_secs(), t.spec_nanos()),
        None => t.spec_secs() == 0 && t.spec_nanos() == 0,
    }
}

/// The wall clock now; a system clock set before 1970 (or past what `chrono` represents)
/// reads as 1970-01-01 00:00 UTC.
fn clock_reading() -> (t: Timestamp)
    ensures
        read_from_clock(t),
{
    let reading = utc_now();
    let ghost clock = choose|clock: std::time::SystemTime| parts(reading) == epoch_reading(epoch_offset(clock));
    match reading {
        Some(t) => {
            assert(epoch_reading(epoch_offset(clock)) == Some((t.spec_secs(), t.spec_nanos())));
            t
        },
        None => {
            let t = Timestamp::unix_epoch();
            assert(epoch_reading(epoch_offset(clock)) is None);
            t
        },
    }
}

/// The zone setting of the configuration as text (empty where it names none).
pub open spec fn zone_setting(timezone: Option<String>) -> Seq<char> {
    match timezone {
        Some(s) => s@,
        None => Seq::empty(),
    }
}

/// The state of the clock.
#[derive(Debug)]
pub struct AppState {
    active_mode: AppMode,
    pub clock: ClockModeState,
    timer: TimerModeState,
    stopwatch: StopwatchModeState,
    pub active_tz: Tz,
    world_clocks: Vec<String>,
    pub daylight_start: u32,
    pub daylight_end: u32,
    last_tick: Instant,
    base_now_clock: Timestamp,
    pub show_help: bool,
    pub help_scroll_index: usize,
}

impl View for AppState {
    type V = AppView;

    closed spec fn view(&self) -> AppView {
        AppView {
            active_mode: self.active_mode,
            blink: self.clock@,
            timer: self.timer@,
            stopwatch: self.stopwatch@,
            active_tz: self.active_tz,
            world_clocks: texts(self.world_clocks@),
            daylight_start: self.daylight_start,
            daylight_end: self.daylight_end,
            last_tick: self.last_tick,
            now: self.base_now_clock,
            show_help: self.show_help,
            help_scroll_index: self.help_scroll_index as nat,
        }
    }
}

impl Default for AppState {
    /// The clock panel in UTC, with the default world clock and daylight hours, an idle
    /// stopwatch and a paused timer set to nothing; its clocks read now.
    fn default() -> (s: Self)
        ensures
            s@.active_mode == AppMode::Clock,
            s@.blink is None,
            s@.timer == (TimerView { state: crate::types::TimerState::Paused, duration: 0, remaining: 0 }),
            s@.stopwatch == StopwatchView::initial(),
            tz_name(s@.active_tz) == "UTC"@,
            tz_from_name("UTC"@) == Some(s@.active_tz),
            s@.world_clocks == default_world_clocks(),
            s@.daylight_start == 6,
            s@.daylight_end == 18,
            read_from_clock(s@.now),
            !s@.show_help,
            s@.help_scroll_index == 0,
    {
        let default_config = AppConfig::default();
        AppState {
            active_mode: default_config.app_mode,
            active_tz: utc_zone(),
            last_tick: instant_now(),
            base_now_clock: clock_reading(),
            world_clocks: default_config.world_clocks,
            daylight_start: default_config.daylight_start,
            daylight_end: default_config.daylight_end,
            stopwatch: StopwatchModeState::default(),
            timer: TimerModeState::default(),
            clock: ClockModeState::default(),
            show_help: false,
            help_scroll_index: 0,
        }
    }
}

impl AppState {
    /// The clock as the settings ask: their panel, zone (the machine's own where they name
    /// none that is known, else UTC), blinking, world clock, daylight hours, and a paused
    /// timer set to their span.
    pub fn new_from_config(config: &AppConfig) -> (s: Self)
        ensures
            s@.active_mode == config.app_mode,
            exists|system: Option<Seq<char>>| s@.active_tz == resolved_zone(zone_setting(config.timezone), system),
            s@.blink == config.blink,
            s@.timer == (TimerView {
                state: crate::types::TimerState::Paused,
                duration: config.timer@,
                remaining: config.timer@,
            }),
            s@.stopwatch == StopwatchView::initial(),
            s@.world_clocks == texts(config.world_clocks@),
            s@.daylight_start == config.daylight_start,
            s@.daylight_end == config.daylight_end,
            read_from_clock(s@.now),
            !s@.show_help,
            s@.help_scroll_index == 0,
    {
        let active_tz = match &config.timezone {
            Some(name) => {
                let text = name.as_str();
                let tz = resolve_timezone(text);
                assert(text@ == zone_setting(config.timezone));
                tz
            },
            None => {
                proof { reveal_strlit(""); }
                let tz = resolve_timezone("");
                assert(""@ == zone_setting(config.timezone));
                tz
            },
        };
        let mut timer = TimerModeState::default();
        timer.set_duration(config.timer);
        AppState {
            active_mode: config.app_mode,
            clock: ClockModeState { blink: config.blink },
            timer,
            stopwatch: StopwatchModeState::default(),
            active_tz,
            world_clocks: copy_texts(&config.world_clocks),
            daylight_start: config.daylight_start,
            daylight_end: config.daylight_end,
            last_tick: instant_now(),
            base_now_clock: clock_reading(),
            show_help: false,
            help_scroll_index: 0,
        }
    }

    fn advance(&mut self, delta: Duration, now_instant: Instant, now_clock: Timestamp)
        requires
            old(self)@.can_advance(delta@),
        ensures
            final(self)@ == old(self)@.advanced(delta@, now_instant, now_clock),
    {
        self.base_now_clock = now_clock;
        if self.timer.is_running() {
            match self.timer.tick(delta) {
                TimerTickResult::TimerExpired => {
                    self.active_mode = AppMode::Countdown;
                },
                TimerTickResult::NoEvent => {},
            }
        }
        if self.stopwatch.is_running() {
            self.stopwatch.tick(delta);
        }
        self.last_tick = now_instant;
    }

    /// Counts the time since the last tick on the timer and the stopwatch; a timer that
    /// runs out brings up the timer panel.
    pub fn tick(&mut self, now_instant: Instant, now_clock: Timestamp)
        requires
            old(self)@.can_advance(instant_gap(now_instant, old(self)@.last_tick)),
        ensures
            final(self)@ == old(self)@.advanced(
                instant_gap(now_instant, old(self)@.last_tick),
                now_instant,
                now_clock,
            ),
    {
        let delta = duration_since(now_instant, self.last_tick);
        self.advance(delta, now_instant, now_clock);
    }

    /// `tick`, where the stopwatch can count the time since the last tick; `false`, with
    /// nothing changed, where it would pass the longest span a `Duration` holds.
    pub fn try_tick(&mut self, now_instant: Instant, now_clock: Timestamp) -> (ok: bool)
        ensures
            ok == old(self)@.can_advance(instant_gap(now_instant, old(self)@.last_tick)),
            ok ==> final(self)@ == old(self)@.advanced(
                instant_gap(now_instant, old(self)@.last_tick),
                now_instant,
                now_clock,
            ),
            !ok ==> final(self)@ == old(self)@,
    {
        let delta = duration_since(now_instant, self.last_tick);
        if self.stopwatch.is_running() && self.stopwatch.elapsed().checked_add(delta).is_none() {
            return false;
        }
        self.advance(delta, now_instant, now_clock);
        true
    }

    /// Opens or closes the help menu; it opens at the section of the current panel.
    pub fn toggle_help(&mut self)
        ensures
            final(self)@ == old(self)@.help_toggled(),
    {
        self.show_help = !self.show_help;
        if self.show_help {
            self.help_scroll_index = match self.active_mode {
                AppMode::Clock | AppMode::World => 0,
                AppMode::Countdown => TIMER_SECTION + 1,
                AppMode::Stopwatch => STOPWATCH_SECTION + 1,
            };
        }
    }

    /// One row up in the help menu.
    pub fn help_scroll_up(&mut self)
        ensures
            final(self)@ == old(self)@.help_up(),
    {
        if self.help_scroll_index > 0 {
            self.help_scroll_index = self.help_scroll_index - 1;
        }
    }

    /// One row down in the help menu.
    pub fn help_scroll_down(&mut self)
        ensures
            final(self)@ == old(self)@.help_down(),
    {
        let max_idx = HELP_ROWS - 1;
        if self.help_scroll_index < max_idx {
            self.help_scroll_index = self.help_scroll_index + 1;
        }
    }

    /// The moment the clock last read.
    pub fn now(&self) -> (t: Timestamp)
        ensures
            t == self@.now,
    {
        self.base_now_clock
    }

    /// The clock reading in the clock's zone at the moment it last read.
    pub fn wall_time(&self) -> (w: WallTime)
        ensures
            w == wall_time_in(self@.now, self@.active_tz),
            w.hour < 24,
            w.minute < 60,
            w.second < 60,
            w.milli < 2000,
    {
        wall_time(self.base_now_clock, self.active_tz)
    }

    /// The zone the clock shows.
    pub fn active_tz(&self) -> (tz: Tz)
        ensures
            tz == self@.active_tz,
    {
        self.active_tz
    }

    /// Switches to a panel.
    pub fn set_active_mode(&mut self, mode: AppMode)
        ensures
            final(self)@ == (AppView { active_mode: mode, ..old(self)@ }),
    {
        if self.active_mode != mode {
            self.active_mode = mode;
        }
    }

    /// The panel shown.
    pub fn active_mode(&self) -> (m: AppMode)
        ensures
            m == self@.active_mode,
    {
        self.active_mode
    }

    /// The zones configured for the world clock.
    pub fn world_clocks(&self) -> (w: &Vec<String>)
        ensures
            texts(w@) == self@.world_clocks,
    {
        &self.world_clocks
    }

    /// How often to redraw: every 30 ms while the stopwatch runs in view, else every 200 ms.
    pub fn tick_rate(&self) -> (d: Duration)
        ensures
            d@ == (if self@.active_mode == AppMode::Stopwatch && self@.stopwatch.is_running() {
                30_000_000nat
            } else {
                200_000_000nat
            }),
    {
        if self.active_mode == AppMode::Stopwatch && self.stopwatch.is_running() {
            Duration::from_millis(30)
        } else {
            Duration::from_millis(200)
        }
    }

    /// The settings of the clock panel.
    pub fn clock(&self) -> (c: &ClockModeState)
        ensures
            c@ == self@.blink,
    {
        &self.clock
    }

    /// The stopwatch.
    pub fn stopwatch(&self) -> (s: &StopwatchModeState)
        ensures
            s@ == self@.stopwatch,
    {
        &self.stopwatch
    }

    /// Acts on the stopwatch.
    pub fn update_stopwatch(&mut self, action: StopwatchAction)
        ensures
            final(self)@ == old(self)@.stopwatch_acted(action),
    {
        match action {
            StopwatchAction::Toggle => self.stopwatch.toggle(),
            StopwatchAction::Reset => self.stopwatch.reset(),
            StopwatchAction::RecordLap => self.stopwatch.record_lap(),
            StopwatchAction::ToggleOverlay => self.stopwatch.toggle_overlay(),
            StopwatchAction::ScrollUp => self.stopwatch.scroll_up(),
            StopwatchAction::ScrollDown => self.stopwatch.scroll_down(),
        }
    }

    /// The timer.
    pub fn timer(&self) -> (t: &TimerModeState)
        ensures
            t@ == self@.timer,
    {
        &self.timer
    }

    /// Acts on the timer.
    pub fn update_timer(&mut self, action: TimerAction)
        ensures
            final(self)@ == old(self)@.timer_acted(action),
    {
        match action {
            TimerAction::Toggle => self.timer.toggle(),
            TimerAction::Reset => self.timer.reset(),
        }
    }

    /// A timer asked for at launch: unless set to nothing, the clock opens in the timer
    /// panel with the countdown running from the full span.
    pub fn start_launch_timer(&mut self)
        ensures
            final(self)@ == (if old(self)@.timer.duration != 0 {
                AppView { active_mode: AppMode::Countdown, ..old(self)@ }.timer_acted(TimerAction::Reset)
            } else {
                old(self)@
            }),
    {
        if !self.timer.duration().is_zero() {
            self.set_active_mode(AppMode::Countdown);
            self.update_timer(TimerAction::Reset);
        }
    }

    /// Acts on a key press and tells the event loop what to do next.
    pub fn handle_key(&mut self, key: KeyPress) -> (outcome: KeyOutcome)
        ensures
            final(self)@ == old(self)@.after_key(key),
            outcome == old(self)@.key_outcome(key),
    {
        let k = key.key;
        if k == Key::Char('q') || (k == Key::Char('c') && key.ctrl) {
            return KeyOutcome::Quit;
        }
        if k == Key::Char('?') {
            self.toggle_help();
            return KeyOutcome::Skip;
        }
        if self.show_help {
            if k == Key::Up || k == Key::Char('k') {
                self.help_scroll_up();
            } else if k == Key::Down || k == Key::Char('j') {
                self.help_scroll_down();
            } else if k == Key::Esc || k == Key::Enter || k == Key::Char(' ') {
                self.toggle_help();
            }
            return KeyOutcome::Skip;
        }
        match self.active_mode {
            AppMode::Countdown => {
                if k == Key::Char(' ') {
                    self.update_timer(TimerAction::Toggle);
                } else if k == Key::Char('r') {
                    self.update_timer(TimerAction::Reset);
                }
            },
            AppMode::Stopwatch => {
                if self.stopwatch.is_overlay_open() {
                    if k == Key::Up || k == Key::Char('k') {
                        self.update_stopwatch(StopwatchAction::ScrollUp);
                    } else if k == Key::Down || k == Key::Char('j') {
                        self.update_stopwatch(StopwatchAction::ScrollDown);
                    } else if k == Key::Enter || k == Key::Char(' ') {
                        self.update_stopwatch(StopwatchAction::ToggleOverlay);
                    }
                    return KeyOutcome::Skip;
                }
                if k == Key::Enter {
                    self.update_stopwatch(StopwatchAction::ToggleOverlay);
                } else if k == Key::Char(' ') {
                    self.update_stopwatch(StopwatchAction::Toggle);
                } else if k == Key::Char('r') {
                    self.update_stopwatch(StopwatchAction::Reset);
                } else if k == Key::Char('l') {
                    self.update_stopwatch(StopwatchAction::RecordLap);
                }
            },
            _ => {},
        }
        if k == Key::Char('1') {
            self.set_active_mode(AppMode::Clock);
        } else if k == Key::Char('2') {
            self.set_active_mode(AppMode::Countdown);
        } else if k == Key::Char('3') {
            self.set_active_mode(AppMode::Stopwatch);
        } else if k == Key::Char('4') {
            self.set_active_mode(AppMode::World);
        }
        KeyOutcome::Continue
    }
}

} // verus!
