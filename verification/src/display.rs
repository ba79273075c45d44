//! What the panels print: the big clock, countdown and stopwatch faces, the lap labels,
//! the line of hints under the face, and the help menu.

use vstd::prelude::*;

use crate::stopwatch::{StopwatchModeState, StopwatchView};
use crate::text::{padded, padded_number, push_char, push_padded, push_text};
use crate::timer::{TimerModeState, TimerView};
use crate::types::{AppMode, BlinkInterval, StopwatchState, TimerState};

verus! {

/// Whether the clock is in the moment it marks by blinking: the top of the hour, of the
/// half hour, of the quarter hour, or of the minute.
pub open spec fn in_blink_window(blink: Option<BlinkInterval>, minute: nat, second: nat) -> bool {
    match blink {
        Some(BlinkInterval::Hour) => minute == 0 && second == 0,
        Some(BlinkInterval::Half) => (minute == 0 || minute == 30) && second == 0,
        Some(BlinkInterval::Quarter) => minute % 15 == 0 && second == 0,
        Some(BlinkInterval::Minute) => second == 0,
        None => false,
    }
}

/// Whether the clock blinks now.
pub fn is_in_blink_window(blink: Option<BlinkInterval>, minute: u32, second: u32) -> (b: bool)
    ensures
        b == in_blink_window(blink, minute as nat, second as nat),
{
    match blink {
        Some(BlinkInterval::Hour) => minute == 0 && second == 0,
        Some(BlinkInterval::Half) => (minute == 0 || minute == 30) && second == 0,
        Some(BlinkInterval::Quarter) => minute % 15 == 0 && second == 0,
        Some(BlinkInterval::Minute) => second == 0,
        None => false,
    }
}

/// The colours the panels draw in.
#[derive(Debug, Clone, Copy, PartialEq, Eq, Structural)]
pub enum Tone {
    Gray,
    DarkGray,
    White,
    Red,
    Yellow,
    LightGreen,
    Cyan,
    LightCyan,
}

/// The colour of the big face: red for a finished timer, yellow while paused, green for a
/// running timer and cyan for a running stopwatch, dark gray for an idle one.
pub open spec fn face_tone_of(mode: AppMode, timer: TimerState, stopwatch: StopwatchState) -> Tone {
    match mode {
        AppMode::Countdown => match timer {
            TimerState::Finished => Tone::Red,
            TimerState::Paused => Tone::Yellow,
            TimerState::Running => Tone::LightGreen,
        },
        AppMode::Stopwatch => match stopwatch {
            StopwatchState::Idle => Tone::DarkGray,
            StopwatchState::Paused => Tone::Yellow,
            StopwatchState::Running => Tone::LightCyan,
        },
        _ => Tone::Gray,
    }
}

/// The colour of the big face.
pub fn face_tone(mode: AppMode, timer: TimerState, stopwatch: StopwatchState) -> (t: Tone)
    ensures
        t == face_tone_of(mode, timer, stopwatch),
{
    match mode {
        AppMode::Countdown => match timer {
            TimerState::Finished => Tone::Red,
            TimerState::Paused => Tone::Yellow,
            TimerState::Running => Tone::LightGreen,
        },
        AppMode::Stopwatch => match stopwatch {
            StopwatchState::Idle => Tone::DarkGray,
            StopwatchState::Paused => Tone::Yellow,
            StopwatchState::Running => Tone::LightCyan,
        },
        _ => Tone::Gray,
    }
}

/// `HH:MM:SS` with `sep` between the fields.
pub open spec fn hms(hours: nat, minutes: nat, seconds: nat, sep: char) -> Seq<char> {
    padded(hours, 2) + seq![sep] + padded(minutes, 2) + seq![sep] + padded(seconds, 2)
}

/// The big clock face: blank in the blinking moments' two flashes (milliseconds 200 to 400
/// and 600 to 800), else `HH:MM:SS` whose separators show only from millisecond 200 to 800.
pub open spec fn clock_face(
    blink: Option<BlinkInterval>,
    hour: nat,
    minute: nat,
    second: nat,
    milli: nat,
) -> Seq<char> {
    let flash = (200 <= milli <= 400) || (600 <= milli <= 800);
    let sep = if 200 <= milli <= 800 { ':' } else { ' ' };
    if in_blink_window(blink, minute, second) && flash {
        Seq::empty()
    } else {
        hms(hour, minute, second, sep)
    }
}

fn push_hms(s: &mut String, hours: u64, minutes: u64, seconds: u64, sep: char)
    ensures
        final(s)@ == old(s)@ + hms(hours as nat, minutes as nat, seconds as nat, sep),
{
    push_padded(s, hours, 2);
    push_char(s, sep);
    push_padded(s, minutes, 2);
    push_char(s, sep);
    push_padded(s, seconds, 2);
    assert(s@ =~= old(s)@ + hms(hours as nat, minutes as nat, seconds as nat, sep));
}

/// The text of the big clock face.
pub fn clock_face_text(
    blink: Option<BlinkInterval>,
    hour: u32,
    minute: u32,
    second: u32,
    milli: u32,
) -> (t: String)
    ensures
        t@ == clock_face(blink, hour as nat, minute as nat, second as nat, milli as nat),
{
    let in_window = is_in_blink_window(blink, minute, second);
    let flash = (200 <= milli && milli <= 400) || (600 <= milli && milli <= 800);
    let sep = if 200 <= milli && milli <= 800 { ':' } else { ' ' };
    let mut t = String::new();
    if !(in_window && flash) {
        push_hms(&mut t, hour as u64, minute as u64, second as u64, sep);
    }
    assert(t@ =~= clock_face(blink, hour as nat, minute as nat, second as nat, milli as nat));
    t
}

/// The countdown face: the remaining `HH:MM:SS`; a finished timer flashes `00:00:00`,
/// shown up to millisecond 400 of each second.
pub open spec fn countdown_face(timer: TimerView, milli: nat) -> Seq<char> {
    let secs = timer.remaining / 1_000_000_000;
    if timer.state == TimerState::Finished {
        if milli <= 400 {
            "00:00:00"@
        } else {
            Seq::empty()
        }
    } else {
        hms(secs / 3600, (secs % 3600) / 60, secs % 60, ':')
    }
}

/// The text of the countdown face.
pub fn countdown_face_text(timer: &TimerModeState, milli: u32) -> (t: String)
    ensures
        t@ == countdown_face(timer@, milli as nat),
{
    let (hours, minutes, seconds) = timer.remaining_time_parts();
    let mut t = String::new();
    if timer.state() == TimerState::Finished {
        if milli <= 400 {
            push_text(&mut t, "00:00:00");
        }
    } else {
        push_hms(&mut t, hours, minutes, seconds, ':');
    }
    assert(t@ =~= countdown_face(timer@, milli as nat));
    t
}

/// The first of the laps listed under the stopwatch face: the last three are listed.
pub fn recent_laps_start(count: usize) -> (start: usize)
    ensures
        start == (if count >= 3 { count - 3 } else { 0 }),
{
    if count >= 3 {
        count - 3
    } else {
        0
    }
}

/// The number of lap `index` (counted from 0) as the lap lists print it: from 1, at least
/// two digits.
pub open spec fn lap_number(index: nat) -> Seq<char> {
    padded(index + 1, 2)
}

/// The number of lap `index`, counted from 0.
pub fn lap_number_text(index: usize) -> (t: String)
    requires
        index < u64::MAX,
    ensures
        t@ == lap_number(index as nat),
{
    padded_number(index as u64 + 1, 2)
}

/// A span in whole seconds as the hint line shows it: `HH:MM:SS`, or `MM:SS` under an hour.
pub open spec fn brief_time(secs: nat) -> Seq<char> {
    let (hours, minutes, seconds) = (secs / 3600, (secs % 3600) / 60, secs % 60);
    if hours > 0 {
        hms(hours, minutes, seconds, ':')
    } else {
        padded(minutes, 2) + seq![':'] + padded(seconds, 2)
    }
}

fn push_brief_time(s: &mut String, secs: u64)
    ensures
        final(s)@ == old(s)@ + brief_time(secs as nat),
{
    let hours = secs / 3600;
    let minutes = (secs % 3600) / 60;
    let seconds = secs % 60;
    if hours > 0 {
        push_hms(s, hours, minutes, seconds, ':');
    } else {
        push_padded(s, minutes, 2);
        push_char(s, ':');
        push_padded(s, seconds, 2);
    }
    assert(s@ =~= old(s)@ + brief_time(secs as nat));
}

/// The line of hints under the face: in clock mode, what runs in the background; in the
/// timer and stopwatch modes, the keys that act now; nothing in the world clock.
pub open spec fn mode_menu(mode: AppMode, timer: TimerView, stopwatch: StopwatchView) -> Seq<char> {
    match mode {
        AppMode::Clock => {
            let timer_part = if timer.state == TimerState::Running {
                "Timer Running: "@ + brief_time(timer.remaining / 1_000_000_000)
            } else {
                Seq::empty()
            };
            let stopwatch_part = if stopwatch.state == StopwatchState::Running {
                "Stopwatch Running: "@ + brief_time(stopwatch.elapsed / 1_000_000_000)
            } else {
                Seq::empty()
            };
            if timer_part.len() > 0 && stopwatch_part.len() > 0 {
                timer_part + " | "@ + stopwatch_part
            } else {
                timer_part + stopwatch_part
            }
        },
        AppMode::Countdown => match timer.state {
            TimerState::Running => "Pause: <space> | Reset: r"@,
            TimerState::Paused => "Resume: <space> | Reset: r"@,
            TimerState::Finished => "Reset: r"@,
        },
        AppMode::Stopwatch => match stopwatch.state {
            StopwatchState::Idle => "Start: <space>"@,
            StopwatchState::Running => "Pause: <space> | Lap: l"@,
            StopwatchState::Paused => if stopwatch.laps.len() > 0 {
                "Resume: <space> | Reset: r"@ + " | View all laps: <enter>"@
            } else {
                "Resume: <space> | Reset: r"@
            },
        },
        AppMode::World => Seq::empty(),
    }
}

/// `String::clear`, which keeps the buffer's capacity.
#[verifier::external_body]
fn clear_text(s: &mut String)
    ensures
        final(s)@ == Seq::<char>::empty(),
{
    s.clear();
}

/// Draws the panels; it keeps one text buffer for the hint line, so that a frame does not
/// allocate it anew.
#[derive(Debug, Default)]
pub struct Renderer {
    mode_menu_buffer: String,
}

impl Renderer {
    /// A renderer with an empty buffer.
    pub fn new() -> (r: Self)
        ensures
            r.menu_text() == Seq::<char>::empty(),
    {
        Renderer { mode_menu_buffer: String::new() }
    }

    /// The hint line last written.
    pub closed spec fn menu_text(&self) -> Seq<char> {
        self.mode_menu_buffer@
    }

    /// Writes the hint line for `mode` into the buffer and returns it.
    pub fn mode_menu_text(
        &mut self,
        mode: AppMode,
        timer: &TimerModeState,
        stopwatch: &StopwatchModeState,
    ) -> (t: &str)
        ensures
            t@ == mode_menu(mode, timer@, stopwatch@),
            final(self).menu_text() == t@,
    {
        clear_text(&mut self.mode_menu_buffer);
        let buf = &mut self.mode_menu_buffer;
        match mode {
            AppMode::Clock => {
                let mut needs_sep = false;
                if timer.is_running() {
                    push_text(buf, "Timer Running: ");
                    push_brief_time(buf, timer.remaining().as_secs());
                    needs_sep = true;
                }
                if stopwatch.is_running() {
                    if needs_sep {
                        push_text(buf, " | ");
                    }
                    push_text(buf, "Stopwatch Running: ");
                    push_brief_time(buf, stopwatch.elapsed().as_secs());
                }
                proof {
                    reveal_strlit("Timer Running: ");
                    reveal_strlit("Stopwatch Running: ");
                }
            },
            AppMode::Countdown => match timer.state() {
                TimerState::Running => push_text(buf, "Pause: <space> | Reset: r"),
                TimerState::Paused => push_text(buf, "Resume: <space> | Reset: r"),
                TimerState::Finished => push_text(buf, "Reset: r"),
            },
            AppMode::Stopwatch => match stopwatch.state() {
                StopwatchState::Idle => push_text(buf, "Start: <space>"),
                StopwatchState::Running => push_text(buf, "Pause: <space> | Lap: l"),
                StopwatchState::Paused => {
                    push_text(buf, "Resume: <space> | Reset: r");
                    if stopwatch.laps().len() > 0 {
                        push_text(buf, " | View all laps: <enter>");
                    }
                },
            },
            AppMode::World => {},
        }
        assert(buf@ =~= mode_menu(mode, timer@, stopwatch@));
        self.mode_menu_buffer.as_str()
    }
}

} // verus!
