//! What holds of the clock across its operations.

use vstd::prelude::*;

use chrono_tz::Tz;

use crate::appstate::{AppView, Key, KeyOutcome, KeyPress};
use crate::clocks::Timestamp;
use crate::help::{is_help_header, HELP_ROWS, STOPWATCH_SECTION, TIMER_SECTION};
use crate::stopwatch::{total, StopwatchView};
use crate::timer::TimerView;
use crate::types::{AppMode, StopwatchState, TimerState};
use crate::world::{daylight, offset_label, row_fits, tracked_zones, WorldRow};
use crate::zones::{fallback_zone, is_white_space, named_zone, resolved_zone, tz_from_name, tz_name};
use crate::display::{countdown_face, in_blink_window};
use crate::text::{padded, stopwatch_text};
use crate::types::BlinkInterval;
use crate::stopwatch::spans;
use vstd::arithmetic::div_mod::lemma_fundamental_div_mod_converse;

verus! {

/// Every operation of the timer keeps what the timer keeps: no more remains than it was set to.
pub proof fn timer_operations_keep_bound(t: TimerView, d: nat, delta: nat)
    requires
        t.wf(),
    ensures
        t.toggled().wf(),
        t.restarted().wf(),
        t.with_duration(d).wf(),
        t.ticked(delta).wf(),
{
}

/// Two ticks of the timer count down as one tick of their sum.
pub proof fn timer_ticks_add_up(t: TimerView, a: nat, b: nat)
    ensures
        t.ticked(a).ticked(b) == t.ticked(a + b),
{
}

/// A tick ends the countdown exactly when it covers the remaining time of a running timer,
/// and then the timer stands finished at zero.
pub proof fn timer_expires_at_zero(t: TimerView, delta: nat)
    requires
        t.state == TimerState::Running,
        t.remaining > 0,
    ensures
        t.expires_after(delta) <==> delta >= t.remaining,
        t.expires_after(delta) ==> t.ticked(delta).state == TimerState::Finished
            && t.ticked(delta).remaining == 0,
        !t.expires_after(delta) ==> t.ticked(delta).state == TimerState::Running
            && t.ticked(delta).remaining == t.remaining - delta,
{
}

/// Pausing and resuming a timer with time left gives back the same timer; a finished
/// timer stays finished.
pub proof fn timer_toggle_twice(t: TimerView)
    ensures
        t.state != TimerState::Finished && t.remaining > 0 ==> t.toggled().toggled() == t,
        t.state == TimerState::Finished ==> t.toggled() == t,
{
}

/// `r` restarts a timer set to a span, running or not, from the full span.
pub proof fn timer_reset_restarts(t: TimerView)
    requires
        t.duration > 0,
    ensures
        t.restarted().state == TimerState::Running,
        t.restarted().remaining == t.duration,
        t.restarted().duration == t.duration,
{
}

/// Every operation of the stopwatch keeps what the stopwatch keeps: the laps add up to no
/// more than the elapsed time, and the overlay selection names a lap.
pub proof fn stopwatch_operations_keep_bounds(s: StopwatchView, delta: nat)
    requires
        s.wf(),
        s.is_running() ==> s.elapsed + delta <= crate::duration::max_nanos(),
    ensures
        s.toggled().wf(),
        s.ticked(delta).wf(),
        s.lapped().wf(),
        s.reset_to().wf(),
        s.overlay_toggled().wf(),
        s.scrolled_up().wf(),
        s.scrolled_down().wf(),
{
    crate::stopwatch::lemma_total_push(s.laps, s.current_lap());
}

/// The recorded laps and the current lap add up to the elapsed time; recording a lap
/// starts the current lap from zero.
pub proof fn laps_add_up(s: StopwatchView)
    requires
        s.wf(),
    ensures
        total(s.laps) + s.current_lap() == s.elapsed,
        s.is_running() ==> total(s.lapped().laps) == s.elapsed && s.lapped().current_lap() == 0,
{
    crate::stopwatch::lemma_total_push(s.laps, s.current_lap());
}

/// Two ticks of the stopwatch count as one tick of their sum.
pub proof fn stopwatch_ticks_add_up(s: StopwatchView, a: nat, b: nat)
    ensures
        s.ticked(a).ticked(b) == s.ticked(a + b),
{
}

/// A running stopwatch cannot be reset and records laps; one that is not running cannot
/// record laps, and resets to idle with no laps and nothing elapsed.
pub proof fn stopwatch_reset_and_laps(s: StopwatchView)
    ensures
        s.is_running() ==> s.reset_to() == s,
        !s.is_running() ==> s.lapped() == s,
        !s.is_running() ==> s.reset_to() == StopwatchView::initial(),
        s.is_running() ==> s.lapped().laps.len() == s.laps.len() + 1,
{
}

/// The lap overlay opens only on a stopwatch that is not running.
pub proof fn overlay_opens_only_when_stopped(s: StopwatchView)
    requires
        !s.overlay_open,
    ensures
        s.overlay_toggled().overlay_open <==> !s.is_running(),
{
}

/// The timer and the stopwatch count on whatever panel is shown, and a timer that runs
/// out brings up the timer panel from any panel.
pub proof fn clocks_count_in_every_panel(v: AppView, delta: nat, i: std::time::Instant, c: Timestamp)
    ensures
        v.advanced(delta, i, c).timer == v.timer.ticked(delta),
        v.advanced(delta, i, c).stopwatch == v.stopwatch.ticked(delta),
        v.timer.expires_after(delta) ==> v.advanced(delta, i, c).active_mode == AppMode::Countdown,
        !v.timer.expires_after(delta) ==> v.advanced(delta, i, c).active_mode == v.active_mode,
{
}

/// Switching panels with `1` to `4` leaves the timer, the stopwatch and its laps as they are.
pub proof fn switching_panels_keeps_clocks(v: AppView, k: KeyPress)
    requires
        !v.show_help,
        !v.overlay_holds_keys(),
        k.key == Key::Char('1') || k.key == Key::Char('2') || k.key == Key::Char('3') || k.key
            == Key::Char('4'),
    ensures
        v.after_key(k).timer == v.timer,
        v.after_key(k).stopwatch == v.stopwatch,
        v.after_key(k).active_mode == (if k.key == Key::Char('1') {
            AppMode::Clock
        } else if k.key == Key::Char('2') {
            AppMode::Countdown
        } else if k.key == Key::Char('3') {
            AppMode::Stopwatch
        } else {
            AppMode::World
        }),
        v.key_outcome(k) == KeyOutcome::Continue,
{
}

/// While the lap overlay is open it holds the keys: the panel stays, the stopwatch neither
/// starts, stops, resets nor records, and only the selection and the overlay change.
pub proof fn overlay_holds_the_keys(v: AppView, k: KeyPress)
    requires
        !v.show_help,
        v.overlay_holds_keys(),
        !AppView::quits(k),
        k.key != Key::Char('?'),
    ensures
        v.after_key(k).active_mode == v.active_mode,
        v.after_key(k).timer == v.timer,
        v.after_key(k).stopwatch.state == v.stopwatch.state,
        v.after_key(k).stopwatch.elapsed == v.stopwatch.elapsed,
        v.after_key(k).stopwatch.laps == v.stopwatch.laps,
        v.key_outcome(k) == KeyOutcome::Skip,
{
}

/// While the help menu is open, keys other than quitting only scroll or close it.
pub proof fn help_holds_the_keys(v: AppView, k: KeyPress)
    requires
        v.show_help,
        !AppView::quits(k),
    ensures
        v.after_key(k).active_mode == v.active_mode,
        v.after_key(k).timer == v.timer,
        v.after_key(k).stopwatch == v.stopwatch,
        v.key_outcome(k) == KeyOutcome::Skip,
{
}

/// The help menu's selection stays on a row of the menu, and the menu opens on the first
/// key of the current panel's section (just under its header).
pub proof fn help_selection_stays_in_menu(v: AppView)
    requires
        v.help_scroll_index < HELP_ROWS,
    ensures
        v.help_toggled().help_scroll_index < HELP_ROWS,
        v.help_up().help_scroll_index < HELP_ROWS,
        v.help_down().help_scroll_index < HELP_ROWS,
        !v.show_help && v.active_mode == AppMode::Countdown ==> is_help_header(
            v.help_toggled().help_scroll_index - 1,
        ) && v.help_toggled().help_scroll_index - 1 == TIMER_SECTION,
        !v.show_help && v.active_mode == AppMode::Stopwatch ==> is_help_header(
            v.help_toggled().help_scroll_index - 1,
        ) && v.help_toggled().help_scroll_index - 1 == STOPWATCH_SECTION,
{
}

/// A zone named by its own name resolves to itself, whatever zone the machine has.
/// (`Tz::name` gives such a name for every zone: see the contract of `zone_name`.)
pub proof fn zone_names_resolve_to_their_zone(tz: Tz, system: Option<Seq<char>>)
    requires
        tz_from_name(tz_name(tz)) == Some(tz),
        tz_name(tz).len() > 0,
        forall|i: int| 0 <= i < tz_name(tz).len() ==> !is_white_space(#[trigger] tz_name(tz)[i]),
    ensures
        resolved_zone(tz_name(tz), system) == tz,
{
    assert(!is_white_space(tz_name(tz)[0]));
}

/// The world clock always lists the clock's own zone, at the top where the configured
/// zones lack it, and otherwise lists the configured zones as they are.
pub proof fn world_clock_lists_own_zone(configured: Seq<Seq<char>>, own: Seq<char>)
    ensures
        tracked_zones(configured, own).contains(own),
        !configured.contains(own) ==> tracked_zones(configured, own)[0] == own
            && tracked_zones(configured, own).drop_first() == configured,
        configured.contains(own) ==> tracked_zones(configured, own) == configured,
{
    if !configured.contains(own) {
        assert(tracked_zones(configured, own)[0] == own);
        assert(tracked_zones(configured, own).drop_first() =~= configured);
    }
}

/// The world clock's line for the clock's own zone is the primary one, with no offset.
pub proof fn own_zone_row_is_primary(row: WorldRow, own: Tz, now: Timestamp, start: nat, end: nat)
    requires
        row_fits(row, tz_name(own), own, now, start, end),
        tz_from_name(tz_name(own)) == Some(own),
    ensures
        row.primary,
        row.offset@ == Seq::<char>::empty(),
{
}

/// Only the line of the clock's own zone is the primary one: a line listed under another
/// zone name is not.
pub proof fn only_own_zone_is_primary(
    row: WorldRow,
    zone: Seq<char>,
    own: Tz,
    now: Timestamp,
    start: nat,
    end: nat,
)
    requires
        row_fits(row, zone, own, now, start, end),
        zone != tz_name(own),
    ensures
        !row.primary,
{
}

/// Daylight hours from `start` to `end`; where `start` comes after `end` they pass midnight,
/// and an hour is then daytime exactly when it is not in the hours from `end` to `start`.
pub proof fn daylight_wraps_midnight(hour: nat, start: nat, end: nat)
    requires
        start > end,
    ensures
        daylight(hour, start, end) <==> !daylight(hour, end, start),
{
}

/// Offsets under an hour either way print nothing; whole hours print with their sign.
pub proof fn offsets_print_whole_hours(diff: int)
    ensures
        -3600 < diff < 3600 ==> offset_label(diff) == Seq::<char>::empty(),
        diff >= 3600 ==> offset_label(diff)[0] == '+',
        diff <= -3600 ==> offset_label(diff)[0] == '-',
{
}

/// Splitting a count of seconds into hours, minutes under 60 and seconds under 60 can be
/// done in one way only.
pub proof fn hms_split_is_unique(total: nat, h: nat, m: nat, sec: nat)
    requires
        h * 3600 + m * 60 + sec == total,
        m < 60,
        sec < 60,
    ensures
        h == total / 3600,
        m == (total % 3600) / 60,
        sec == total % 60,
{
    let r = m * 60 + sec;
    assert(r < 3600) by (nonlinear_arith)
        requires m < 60, sec < 60, r == m * 60 + sec;
    lemma_fundamental_div_mod_converse(total as int, 3600, h as int, r as int);
    lemma_fundamental_div_mod_converse(r as int, 60, m as int, sec as int);
    assert(total == (h * 60 + m) * 60 + sec) by (nonlinear_arith)
        requires h * 3600 + m * 60 + sec == total;
    lemma_fundamental_div_mod_converse(total as int, 60, (h * 60 + m) as int, sec as int);
}

/// The stopwatch reading of a span: hours (shown when asked for or once an hour has passed),
/// then the minutes, then the seconds, then the milliseconds, each the part of the span
/// that the clock shows there, so that reading the text back as `h:m:s.ms` gives the span.
pub proof fn stopwatch_text_reads_back(nanos: nat, force_hours: bool, h: nat, m: nat, sec: nat, ms: nat)
    requires
        h * 3600 + m * 60 + sec == nanos / 1_000_000_000,
        m < 60,
        sec < 60,
        ms * 1_000_000 <= nanos % 1_000_000_000 < (ms + 1) * 1_000_000,
    ensures
        stopwatch_text(nanos, force_hours) == (if force_hours || h > 0 {
            padded(h, 2) + seq![':']
        } else {
            Seq::empty()
        }) + padded(m, 2) + seq![':'] + padded(sec, 2) + seq!['.'] + padded(ms, 3),
        (h > 0) <==> nanos / 1_000_000_000 >= 3600,
{
    hms_split_is_unique(nanos / 1_000_000_000, h, m, sec);
    let sub = nanos % 1_000_000_000;
    lemma_fundamental_div_mod_converse(sub as int, 1_000_000, ms as int, (sub - ms * 1_000_000) as int);
    let text = stopwatch_text(nanos, force_hours);
    let tail = padded(m, 2) + seq![':'] + padded(sec, 2) + seq!['.'] + padded(ms, 3);
    if force_hours || h > 0 {
        assert(text =~= padded(h, 2) + seq![':'] + tail);
        assert(padded(h, 2) + seq![':'] + tail =~= padded(h, 2) + seq![':'] + padded(m, 2) + seq![':']
            + padded(sec, 2) + seq!['.'] + padded(ms, 3));
    } else {
        assert(text =~= Seq::<char>::empty() + tail);
        assert(Seq::<char>::empty() + tail =~= Seq::<char>::empty() + padded(m, 2) + seq![':'] + padded(sec, 2)
            + seq!['.'] + padded(ms, 3));
    }
}

/// The countdown face of a timer that has not finished reads `HH:MM:SS`: the hours, the
/// minutes and the seconds of the remaining whole seconds, in that order; a finished timer
/// flashes `00:00:00` in the first 400 ms of each second and shows nothing otherwise.
pub proof fn countdown_face_reads_back(t: TimerView, milli: nat, h: nat, m: nat, sec: nat)
    requires
        h * 3600 + m * 60 + sec == t.remaining / 1_000_000_000,
        m < 60,
        sec < 60,
    ensures
        t.state != TimerState::Finished ==> countdown_face(t, milli) == padded(h, 2) + seq![':']
            + padded(m, 2) + seq![':'] + padded(sec, 2),
        t.state == TimerState::Finished && milli <= 400 ==> countdown_face(t, milli) == "00:00:00"@,
        t.state == TimerState::Finished && milli > 400 ==> countdown_face(t, milli).len() == 0,
{
    hms_split_is_unique(t.remaining / 1_000_000_000, h, m, sec);
}

/// The blinking moments: with `Hour` the top of each hour, with `Half` every full and half
/// hour, with `Quarter` every quarter hour, with `Minute` every minute, and no blinking
/// unless asked for; each interval blinks at least wherever a longer one does.
pub proof fn blink_windows(minute: nat, second: nat)
    requires
        minute < 60,
    ensures
        in_blink_window(Some(BlinkInterval::Hour), minute, second) <==> minute == 0 && second == 0,
        in_blink_window(Some(BlinkInterval::Half), minute, second) <==> minute % 30 == 0 && second == 0,
        in_blink_window(Some(BlinkInterval::Quarter), minute, second) <==> minute % 15 == 0 && second == 0,
        in_blink_window(Some(BlinkInterval::Minute), minute, second) <==> second == 0,
        !in_blink_window(None, minute, second),
        in_blink_window(Some(BlinkInterval::Hour), minute, second) ==> in_blink_window(Some(BlinkInterval::Half), minute, second),
        in_blink_window(Some(BlinkInterval::Half), minute, second) ==> in_blink_window(Some(BlinkInterval::Quarter), minute, second),
        in_blink_window(Some(BlinkInterval::Quarter), minute, second) ==> in_blink_window(Some(BlinkInterval::Minute), minute, second),
{
}

/// The keys of the timer panel: `r` restarts a timer set to a span from the full span,
/// running, whether or not it ran; space pauses a running timer and resumes a paused one
/// with time left. Neither changes the panel, the span or the stopwatch.
pub proof fn timer_panel_keys(v: AppView, k: KeyPress)
    requires
        !v.show_help,
        v.active_mode == AppMode::Countdown,
        k.ctrl == false,
    ensures
        k.key == Key::Char('r') && v.timer.duration > 0 ==> v.after_key(k).timer.state == TimerState::Running
            && v.after_key(k).timer.remaining == v.timer.duration,
        k.key == Key::Char('r') && v.timer.duration == 0 ==> v.after_key(k).timer == v.timer,
        k.key == Key::Char(' ') && v.timer.state == TimerState::Running ==> v.after_key(k).timer.state
            == TimerState::Paused && v.after_key(k).timer.remaining == v.timer.remaining,
        k.key == Key::Char(' ') && v.timer.state == TimerState::Paused && v.timer.remaining > 0
            ==> v.after_key(k).timer.state == TimerState::Running && v.after_key(k).timer.remaining
            == v.timer.remaining,
        k.key == Key::Char(' ') && v.timer.state == TimerState::Finished ==> v.after_key(k).timer == v.timer,
        k.key == Key::Char('r') || k.key == Key::Char(' ') ==> v.after_key(k).timer.duration == v.timer.duration
            && v.after_key(k).active_mode == AppMode::Countdown
            && v.after_key(k).stopwatch == v.stopwatch
            && v.key_outcome(k) == KeyOutcome::Continue,
{
}

/// The keys of the stopwatch panel with the lap overlay closed: space starts or pauses it,
/// `r` clears a stopwatch that is not running, `l` records the current lap of a running
/// one, Enter opens the overlay of one that is not running. None changes the panel or the
/// timer.
pub proof fn stopwatch_panel_keys(v: AppView, k: KeyPress)
    requires
        !v.show_help,
        v.active_mode == AppMode::Stopwatch,
        !v.stopwatch.overlay_open,
        v.stopwatch.wf(),
        k.ctrl == false,
    ensures
        k.key == Key::Char(' ') ==> v.after_key(k).stopwatch.state == (if v.stopwatch.state
            == StopwatchState::Running {
            StopwatchState::Paused
        } else {
            StopwatchState::Running
        }) && v.after_key(k).stopwatch.elapsed == v.stopwatch.elapsed
            && v.after_key(k).stopwatch.laps == v.stopwatch.laps,
        k.key == Key::Char('r') && v.stopwatch.state != StopwatchState::Running ==> v.after_key(k).stopwatch.state
            == StopwatchState::Idle && v.after_key(k).stopwatch.elapsed == 0
            && v.after_key(k).stopwatch.laps.len() == 0,
        k.key == Key::Char('r') && v.stopwatch.state == StopwatchState::Running ==> v.after_key(k).stopwatch
            == v.stopwatch,
        k.key == Key::Char('l') && v.stopwatch.state == StopwatchState::Running ==> v.after_key(k).stopwatch.laps
            == v.stopwatch.laps.push((v.stopwatch.elapsed - total(v.stopwatch.laps)) as nat)
            && v.after_key(k).stopwatch.elapsed == v.stopwatch.elapsed,
        k.key == Key::Char('l') && v.stopwatch.state != StopwatchState::Running ==> v.after_key(k).stopwatch
            == v.stopwatch,
        k.key == Key::Enter && v.stopwatch.state != StopwatchState::Running ==> v.after_key(k).stopwatch.overlay_open,
        k.key == Key::Enter && v.stopwatch.state == StopwatchState::Running ==> !v.after_key(k).stopwatch.overlay_open,
        k.key == Key::Char(' ') || k.key == Key::Char('r') || k.key == Key::Char('l') || k.key == Key::Enter
            ==> v.after_key(k).active_mode == AppMode::Stopwatch && v.after_key(k).timer == v.timer,
{
}

/// Given the zone name the machine reports, the zone shown for a setting that names no
/// known zone is the machine's zone where it is known, else UTC; a setting that names a
/// known zone wins over the machine's.
pub proof fn machine_zone_fallback(input: Seq<char>, system: Seq<char>, z: Tz)
    requires
        tz_from_name(system) == Some(z),
    ensures
        named_zone(input) is None ==> resolved_zone(input, Some(system)) == z,
        named_zone(input) matches Some(n) ==> resolved_zone(input, Some(system)) == n,
        named_zone(input) is None ==> resolved_zone(input, None) == fallback_zone(None),
{
}

} // verus!
