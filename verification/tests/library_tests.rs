use clocktop::appstate::{AppState, Key, KeyOutcome, KeyPress, StopwatchAction, TimerAction};
use clocktop::clocks::{wall_time, Timestamp, MAX_UNIX_SECS, MIN_UNIX_SECS};
use clocktop::config::{AppConfig, Cli, Commands};
use clocktop::display::{
    clock_face_text, countdown_face_text, face_tone, is_in_blink_window, lap_number_text,
    recent_laps_start, Renderer, Tone,
};
use clocktop::help::{help_manifest, HELP_ROWS};
use clocktop::text::padded_number;
use clocktop::world::{is_daylight, offset_label_text, row_tone, tracked_zone_names, world_row, world_rows};
use clocktop::zones::{city_name, resolve_timezone_with};
use clocktop::{
    AppMode, BlinkInterval, Duration, ModeArg, StopwatchModeState, StopwatchState, TimerModeState,
    TimerState, TimerTickResult,
};

fn key(c: char) -> KeyPress {
    KeyPress { key: Key::Char(c), ctrl: false }
}

fn noon_2024() -> Timestamp {
    // 2024-01-01 12:34:56.789 UTC
    Timestamp::from_unix(1_704_112_496, 789_000_000).unwrap()
}

#[test]
fn duration_parts_and_arithmetic() {
    let d = Duration::new(3, 2_500_000_000);
    assert_eq!(d.as_secs(), 5);
    assert_eq!(d.subsec_nanos(), 500_000_000);
    assert_eq!(d.subsec_millis(), 500);
    assert_eq!(Duration::from_millis(1_234), Duration::new(1, 234_000_000));
    assert!(Duration::zero().is_zero());
    assert!(!Duration::from_millis(1).is_zero());
    assert_eq!(Duration::from_secs(3).checked_sub(Duration::from_secs(5)), None);
    assert_eq!(
        Duration::from_secs(5).checked_sub(Duration::from_millis(1_500)),
        Some(Duration::from_millis(3_500))
    );
    assert_eq!(
        Duration::from_secs(u64::MAX).checked_add(Duration::from_secs(1)),
        None
    );
    assert_eq!(
        Duration::from_millis(700).checked_add(Duration::from_millis(600)),
        Some(Duration::from_millis(1_300))
    );
}

#[test]
fn timer_ticks_add_up_on_values() {
    let mut a = TimerModeState::default();
    a.set_duration(Duration::from_secs(10));
    a.toggle();
    let mut b = TimerModeState::default();
    b.set_duration(Duration::from_secs(10));
    b.toggle();
    a.tick(Duration::from_secs(2));
    a.tick(Duration::from_secs(3));
    b.tick(Duration::from_secs(5));
    assert_eq!(a.remaining(), b.remaining());
    assert_eq!(a.state(), b.state());
    // Covering the remaining time in two ticks finishes it as one tick would.
    assert_eq!(a.tick(Duration::from_secs(9)), TimerTickResult::TimerExpired);
    assert_eq!(a.state(), TimerState::Finished);
    assert_eq!(a.remaining(), Duration::zero());
}

#[test]
fn timer_edge_cases() {
    let mut t = TimerModeState::default();
    // A paused timer with nothing left does not start.
    t.toggle();
    assert_eq!(t.state(), TimerState::Paused);
    // Reset does nothing on a timer set to nothing.
    t.reset();
    assert_eq!(t.state(), TimerState::Paused);
    // A paused timer does not count down.
    t.set_duration(Duration::from_secs(4));
    assert_eq!(t.tick(Duration::from_secs(1)), TimerTickResult::NoEvent);
    assert_eq!(t.remaining(), Duration::from_secs(4));
    // Pause and resume give back the same timer.
    t.toggle();
    t.toggle();
    t.toggle();
    assert_eq!(t.state(), TimerState::Running);
    assert!(t.is_running());
    // Running with less than the tick left: expires.
    assert_eq!(t.tick(Duration::from_secs(60)), TimerTickResult::TimerExpired);
    // The reset restarts from the full span.
    t.reset();
    assert_eq!(t.remaining(), Duration::from_secs(4));
    assert_eq!(*t.duration(), Duration::from_secs(4));
}

#[test]
fn timer_remaining_parts() {
    let mut t = TimerModeState::default();
    t.set_duration(Duration::new(3_725, 999_999_999));
    assert_eq!(t.remaining_time_parts(), (1, 2, 5));
}

#[test]
fn laps_add_up_to_elapsed() {
    let mut sw = StopwatchModeState::default();
    sw.toggle();
    sw.tick(Duration::from_millis(1_500));
    sw.record_lap();
    sw.tick(Duration::from_millis(2_250));
    sw.record_lap();
    sw.tick(Duration::from_millis(100));
    assert_eq!(sw.laps(), &[Duration::from_millis(1_500), Duration::from_millis(2_250)]);
    assert_eq!(sw.current_lap_time(), Duration::from_millis(100));
    assert_eq!(sw.elapsed(), Duration::from_millis(3_850));
    sw.record_lap();
    assert_eq!(sw.current_lap_time(), Duration::zero());
}

#[test]
fn stopwatch_only_when_allowed() {
    let mut sw = StopwatchModeState::default();
    // No lap while idle.
    sw.record_lap();
    assert!(sw.laps().is_empty());
    sw.toggle();
    sw.tick(Duration::from_secs(1));
    sw.record_lap();
    // No reset and no overlay while running.
    sw.reset();
    assert_eq!(sw.elapsed(), Duration::from_secs(1));
    sw.toggle_overlay();
    assert!(!sw.is_overlay_open());
    sw.toggle();
    assert_eq!(*sw.state(), StopwatchState::Paused);
    // A paused stopwatch does not count.
    sw.tick(Duration::from_secs(1));
    assert_eq!(sw.elapsed(), Duration::from_secs(1));
}

#[test]
fn overlay_scrolling_stays_on_laps() {
    let mut sw = StopwatchModeState::default();
    sw.toggle();
    for _ in 0..3 {
        sw.tick(Duration::from_secs(1));
        sw.record_lap();
    }
    sw.toggle();
    sw.scroll_down();
    assert_eq!(sw.scroll_index(), 0); // closed overlay does not scroll
    sw.toggle_overlay();
    assert!(sw.is_overlay_open());
    sw.scroll_down();
    sw.scroll_down();
    sw.scroll_down();
    assert_eq!(sw.scroll_index(), 2);
    sw.scroll_up();
    assert_eq!(sw.scroll_index(), 1);
    sw.toggle_overlay();
    assert_eq!(sw.scroll_index(), 0);
    sw.scroll_up();
    assert_eq!(sw.scroll_index(), 0);
}

#[test]
fn padded_numbers() {
    assert_eq!(padded_number(7, 2), "07");
    assert_eq!(padded_number(123, 2), "123");
    assert_eq!(padded_number(0, 3), "000");
    assert_eq!(padded_number(18_446_744_073_709_551_615, 2), "18446744073709551615");
}

#[test]
fn stopwatch_hours_after_an_hour() {
    assert_eq!(
        clocktop::format_stopwatch_duration(Duration::new(3_599, 999_000_000), false),
        "59:59.999"
    );
    assert_eq!(
        clocktop::format_stopwatch_duration(Duration::from_secs(3_600), false),
        "01:00:00.000"
    );
    assert_eq!(
        clocktop::format_stopwatch_duration(Duration::from_secs(100 * 3_600), false),
        "100:00:00.000"
    );
}

#[test]
fn clock_face_blinks_and_separators() {
    assert!(is_in_blink_window(Some(BlinkInterval::Hour), 0, 0));
    assert!(!is_in_blink_window(Some(BlinkInterval::Hour), 30, 0));
    assert!(is_in_blink_window(Some(BlinkInterval::Half), 30, 0));
    assert!(is_in_blink_window(Some(BlinkInterval::Quarter), 45, 0));
    assert!(!is_in_blink_window(Some(BlinkInterval::Quarter), 45, 1));
    assert!(is_in_blink_window(Some(BlinkInterval::Minute), 7, 0));
    assert!(!is_in_blink_window(None, 0, 0));

    assert_eq!(clock_face_text(None, 9, 5, 3, 500), "09:05:03");
    assert_eq!(clock_face_text(None, 9, 5, 3, 100), "09 05 03");
    assert_eq!(clock_face_text(None, 23, 59, 59, 900), "23 59 59");
    assert_eq!(clock_face_text(Some(BlinkInterval::Hour), 10, 0, 0, 300), "");
    assert_eq!(clock_face_text(Some(BlinkInterval::Hour), 10, 0, 0, 500), "10:00:00");
    assert_eq!(clock_face_text(Some(BlinkInterval::Hour), 10, 0, 0, 700), "");
}

#[test]
fn countdown_and_stopwatch_faces() {
    let mut t = TimerModeState::default();
    t.set_duration(Duration::from_secs(3_661));
    assert_eq!(countdown_face_text(&t, 0), "01:01:01");
    t.toggle();
    t.tick(Duration::from_secs(4_000));
    assert_eq!(countdown_face_text(&t, 100), "00:00:00");
    assert_eq!(countdown_face_text(&t, 401), "");

    let mut sw = StopwatchModeState::default();
    sw.toggle();
    sw.tick(Duration::from_millis(61_042));
    assert_eq!(clocktop::format_stopwatch_duration(sw.elapsed(), false), "01:01.042");
}

#[test]
fn lap_labels() {
    assert_eq!(recent_laps_start(0), 0);
    assert_eq!(recent_laps_start(2), 0);
    assert_eq!(recent_laps_start(7), 4);
    assert_eq!(lap_number_text(0), "01");
    assert_eq!(lap_number_text(99), "100");
}

#[test]
fn hint_line() {
    let mut renderer = Renderer::new();
    let mut timer = TimerModeState::default();
    let mut sw = StopwatchModeState::default();
    assert_eq!(renderer.mode_menu_text(AppMode::Clock, &timer, &sw), "");
    timer.set_duration(Duration::from_secs(3_725));
    timer.toggle();
    sw.toggle();
    sw.tick(Duration::from_secs(65));
    assert_eq!(
        renderer.mode_menu_text(AppMode::Clock, &timer, &sw),
        "Timer Running: 01:02:05 | Stopwatch Running: 01:05"
    );
    assert_eq!(renderer.mode_menu_text(AppMode::Countdown, &timer, &sw), "Pause: <space> | Reset: r");
    assert_eq!(renderer.mode_menu_text(AppMode::Stopwatch, &timer, &sw), "Pause: <space> | Lap: l");
    sw.record_lap();
    sw.toggle();
    timer.toggle();
    assert_eq!(
        renderer.mode_menu_text(AppMode::Stopwatch, &timer, &sw),
        "Resume: <space> | Reset: r | View all laps: <enter>"
    );
    assert_eq!(renderer.mode_menu_text(AppMode::Countdown, &timer, &sw), "Resume: <space> | Reset: r");
    assert_eq!(renderer.mode_menu_text(AppMode::World, &timer, &sw), "");
    sw.reset();
    assert_eq!(renderer.mode_menu_text(AppMode::Stopwatch, &timer, &sw), "Start: <space>");
}

#[test]
fn help_menu_rows() {
    let rows = help_manifest();
    assert_eq!(rows.len(), HELP_ROWS);
    assert!(rows[8].is_header);
    assert_eq!(rows[9].description, "Toggle timer (Start/Pause)");
    assert_eq!(rows[12].category, "Stopwatch");
}

#[test]
fn zones_and_cities() {
    assert_eq!(city_name("America/Argentina/Buenos_Aires"), "Buenos Aires");
    assert_eq!(city_name("UTC"), "UTC");
    assert_eq!(city_name("Etc/"), "");
    assert_eq!(resolve_timezone_with("  ", Some("Asia/Tokyo")), chrono_tz::Asia::Tokyo);
    assert_eq!(resolve_timezone_with("Europe/Paris", Some("Asia/Tokyo")), chrono_tz::Europe::Paris);
    assert_eq!(resolve_timezone_with("nowhere", Some("also nowhere")), chrono_tz::UTC);
    assert_eq!(resolve_timezone_with("", None), chrono_tz::UTC);
    // Every zone resolves back from its own name.
    for tz in chrono_tz::TZ_VARIANTS.iter() {
        assert_eq!(clocktop::resolve_timezone(tz.name()), *tz);
    }
}

#[test]
fn world_clock_rows() {
    let configured = vec!["Asia/Tokyo".to_string(), "Not/AZone".to_string(), "Europe/London".to_string()];
    let zones = tracked_zone_names(&configured, "UTC");
    assert_eq!(zones, vec!["UTC", "Asia/Tokyo", "Not/AZone", "Europe/London"]);
    let same = tracked_zone_names(&configured, "Asia/Tokyo");
    assert_eq!(same, configured);

    let rows = world_rows(&configured, chrono_tz::UTC, noon_2024(), 6, 18);
    assert_eq!(rows.len(), 3);
    assert_eq!(rows[0].city, "UTC");
    assert!(rows[0].primary);
    assert_eq!(rows[0].offset, "");
    assert!(rows[0].daylight);
    assert_eq!(rows[1].city, "TOKYO");
    assert_eq!(rows[1].offset, "+9h");
    assert!(!rows[1].primary);
    assert!(!rows[1].daylight); // 21:34 in Tokyo
    assert_eq!(rows[2].city, "LONDON");
    assert_eq!(rows[2].offset, "");

    let ny = world_row("America/New_York", chrono_tz::Asia::Kolkata, noon_2024(), 6, 18).unwrap();
    assert_eq!(ny.offset, "-10h"); // -5h against +5:30 truncates to -10
    assert_eq!(ny.city, "NEW YORK");
    assert!(world_row("Mars/Olympus", chrono_tz::UTC, noon_2024(), 6, 18).is_none());
}

#[test]
fn offsets_and_daylight() {
    assert_eq!(offset_label_text(3_599), "");
    assert_eq!(offset_label_text(-3_599), "");
    assert_eq!(offset_label_text(7_200), "+2h");
    assert_eq!(offset_label_text(-19_800), "-5h");
    assert!(is_daylight(6, 6, 18));
    assert!(!is_daylight(18, 6, 18));
    assert!(is_daylight(23, 22, 6));
    assert!(is_daylight(3, 22, 6));
    assert!(!is_daylight(12, 22, 6));
}

#[test]
fn wall_time_of_a_moment() {
    let w = wall_time(noon_2024(), chrono_tz::UTC);
    assert_eq!((w.hour, w.minute, w.second, w.milli), (12, 34, 56, 789));
    let tokyo = wall_time(noon_2024(), chrono_tz::Asia::Tokyo);
    assert_eq!(tokyo.hour, 21);
    assert!(Timestamp::from_unix(i64::MAX, 0).is_none());
    let now = clocktop::clocks::utc_now().unwrap();
    assert!(now.unix_secs() > 1_700_000_000);
    assert!(now.subsec_nanos() < 1_000_000_000);
}

#[test]
fn config_and_command_line() {
    let c = AppConfig::default();
    assert_eq!(c.timer, Duration::from_secs(1_500));
    assert_eq!(c.world_clocks, vec!["America/New_York", "Europe/London", "Asia/Tokyo"]);
    assert_eq!((c.daylight_start, c.daylight_end), (6, 18));
    assert_eq!(c.app_mode, AppMode::Clock);

    let cli = Cli::load(Cli {
        command: None,
        blink: None,
        timer: Some(Duration::from_secs(45 * 60)),
        timezone: None,
        mode: Some(AppMode::World),
    });
    assert_eq!(cli.mode, Some(AppMode::Countdown));
    let cli = Cli::load(Cli {
        command: Some(Commands::Validate),
        blink: Some(BlinkInterval::Quarter),
        timer: None,
        timezone: Some("UTC".to_string()),
        mode: Some(AppMode::Stopwatch),
    });
    assert_eq!(cli.mode, Some(AppMode::Stopwatch));
    assert_eq!(cli.command, Some(Commands::Validate));
}

fn test_config() -> AppConfig {
    AppConfig {
        blink: Some(BlinkInterval::Minute),
        timer: Duration::from_secs(5),
        timezone: Some("Australia/Perth".to_string()),
        world_clocks: vec!["Europe/London".to_string()],
        daylight_start: 9,
        daylight_end: 17,
        app_mode: AppMode::Stopwatch,
    }
}

#[test]
fn state_from_config() {
    let s = AppState::new_from_config(&test_config());
    assert_eq!(s.active_mode(), AppMode::Stopwatch);
    assert_eq!(s.active_tz, chrono_tz::Australia::Perth);
    assert_eq!(*s.clock().blink(), Some(BlinkInterval::Minute));
    assert_eq!(s.timer().state(), TimerState::Paused);
    assert_eq!(*s.timer().duration(), Duration::from_secs(5));
    assert_eq!(s.world_clocks(), &vec!["Europe/London".to_string()]);
    assert_eq!((s.daylight_start, s.daylight_end), (9, 17));
    assert_eq!(s.tick_rate(), Duration::from_millis(200));

    let d = AppState::default();
    assert_eq!(d.active_tz, chrono_tz::UTC);
    assert_eq!(d.active_mode(), AppMode::Clock);
}

#[test]
fn keys_drive_the_panels() {
    let mut s = AppState::new_from_config(&test_config());
    assert_eq!(s.handle_key(key('2')), KeyOutcome::Continue);
    assert_eq!(s.active_mode(), AppMode::Countdown);
    s.handle_key(key(' '));
    assert!(s.timer().is_running());
    s.handle_key(key('3'));
    s.handle_key(key(' '));
    assert!(s.stopwatch().is_running());
    assert_eq!(s.tick_rate(), Duration::from_millis(30));
    s.handle_key(key('1'));
    // The stopwatch and timer keep running in the clock panel.
    assert!(s.stopwatch().is_running());
    assert!(s.timer().is_running());
    assert_eq!(s.tick_rate(), Duration::from_millis(200));

    // Help menu opens at the section of the panel and holds the keys.
    s.handle_key(key('3'));
    assert_eq!(s.handle_key(key('?')), KeyOutcome::Skip);
    assert!(s.show_help);
    assert_eq!(s.help_scroll_index, 12);
    assert_eq!(s.handle_key(key('1')), KeyOutcome::Skip);
    assert_eq!(s.active_mode(), AppMode::Stopwatch);
    for _ in 0..10 {
        s.handle_key(KeyPress { key: Key::Down, ctrl: false });
    }
    assert_eq!(s.help_scroll_index, HELP_ROWS - 1);
    s.handle_key(KeyPress { key: Key::Esc, ctrl: false });
    assert!(!s.show_help);

    // The lap overlay holds the keys while open.
    s.handle_key(key(' '));
    assert!(!s.stopwatch().is_running());
    s.handle_key(KeyPress { key: Key::Enter, ctrl: false });
    assert!(s.stopwatch().is_overlay_open());
    assert_eq!(s.handle_key(key('1')), KeyOutcome::Skip);
    assert_eq!(s.active_mode(), AppMode::Stopwatch);
    s.handle_key(key(' '));
    assert!(!s.stopwatch().is_overlay_open());

    assert_eq!(s.handle_key(key('q')), KeyOutcome::Quit);
    assert_eq!(s.handle_key(KeyPress { key: Key::Char('c'), ctrl: true }), KeyOutcome::Quit);
    assert_eq!(s.handle_key(key('c')), KeyOutcome::Continue);
}

#[test]
fn actions_and_launch_timer() {
    let mut s = AppState::new_from_config(&test_config());
    s.update_stopwatch(StopwatchAction::Toggle);
    assert!(s.stopwatch().is_running());
    s.update_stopwatch(StopwatchAction::RecordLap);
    assert_eq!(s.stopwatch().laps().len(), 1);
    s.update_timer(TimerAction::Reset);
    assert!(s.timer().is_running());
    s.update_timer(TimerAction::Toggle);
    assert!(!s.timer().is_running());

    let mut launched = AppState::new_from_config(&test_config());
    launched.start_launch_timer();
    assert_eq!(launched.active_mode(), AppMode::Countdown);
    assert!(launched.timer().is_running());

    let mut empty = AppState::new_from_config(&AppConfig { timer: Duration::zero(), ..test_config() });
    empty.start_launch_timer();
    assert_eq!(empty.active_mode(), AppMode::Stopwatch);
    assert!(!empty.timer().is_running());
}

#[test]
fn ticking_counts_time() {
    let mut s = AppState::new_from_config(&test_config());
    s.update_stopwatch(StopwatchAction::Toggle);
    s.update_timer(TimerAction::Reset);
    s.set_active_mode(AppMode::World);
    let later = std::time::Instant::now() + std::time::Duration::from_secs(6);
    let now = noon_2024();
    assert!(s.try_tick(later, now));
    // The timer of 5 s ran out and brought up the timer panel.
    assert_eq!(s.active_mode(), AppMode::Countdown);
    assert_eq!(s.timer().state(), TimerState::Finished);
    assert!(s.stopwatch().elapsed() >= Duration::from_secs(6));
    assert!(s.stopwatch().elapsed() < Duration::from_secs(7));
    assert_eq!(s.now(), now);
    assert_eq!(s.wall_time().hour, 20); // Perth, UTC+8
    // A tick at the same instant adds nothing.
    let before = s.stopwatch().elapsed();
    s.tick(later, now);
    assert_eq!(s.stopwatch().elapsed(), before);
}

#[test]
fn tones_of_faces_and_rows() {
    assert_eq!(face_tone(AppMode::Countdown, TimerState::Finished, StopwatchState::Idle), Tone::Red);
    assert_eq!(face_tone(AppMode::Countdown, TimerState::Paused, StopwatchState::Idle), Tone::Yellow);
    assert_eq!(face_tone(AppMode::Countdown, TimerState::Running, StopwatchState::Idle), Tone::LightGreen);
    assert_eq!(face_tone(AppMode::Stopwatch, TimerState::Running, StopwatchState::Idle), Tone::DarkGray);
    assert_eq!(face_tone(AppMode::Stopwatch, TimerState::Running, StopwatchState::Running), Tone::LightCyan);
    assert_eq!(face_tone(AppMode::Clock, TimerState::Finished, StopwatchState::Running), Tone::Gray);
    assert_eq!(row_tone(true, true), Tone::Yellow);
    assert_eq!(row_tone(true, false), Tone::White);
    assert_eq!(row_tone(false, true), Tone::Cyan);
    assert_eq!(row_tone(false, false), Tone::LightCyan);
}

#[test]
fn representable_range_matches_chrono() {
    assert!(Timestamp::from_unix(MIN_UNIX_SECS, 0).is_some());
    assert!(Timestamp::from_unix(MIN_UNIX_SECS - 1, 999_999_999).is_none());
    assert!(Timestamp::from_unix(MAX_UNIX_SECS, 999_999_999).is_some());
    assert!(Timestamp::from_unix(MAX_UNIX_SECS + 1, 0).is_none());
    // A leap second only in the last second of a minute.
    assert!(Timestamp::from_unix(59, 1_500_000_000).is_some());
    assert!(Timestamp::from_unix(58, 1_500_000_000).is_none());
    assert!(Timestamp::from_unix(59, 2_000_000_000).is_none());
    assert!(Timestamp::from_unix(-1, 1_000_000_000).is_some()); // -1 is :59 of a minute
    for secs in [MIN_UNIX_SECS, -86_401, -1, 0, 59, 1_704_112_496, MAX_UNIX_SECS] {
        for nanos in [0u32, 999_999_999, 1_000_000_000, 1_999_999_999, 2_000_000_000] {
            let expected = chrono::DateTime::<chrono::Utc>::from_timestamp(secs, nanos).is_some();
            assert_eq!(Timestamp::from_unix(secs, nanos).is_some(), expected);
        }
    }
    let epoch = Timestamp::unix_epoch();
    assert_eq!((epoch.unix_secs(), epoch.subsec_nanos()), (0, 0));
    let t = Timestamp::from_epoch_offset(Duration::new(1_704_112_496, 789_000_000)).unwrap();
    assert_eq!(t, noon_2024());
    assert!(Timestamp::from_epoch_offset(Duration::from_secs(u64::MAX)).is_none());
}

#[test]
fn only_own_zone_row_is_primary() {
    let ny = world_row("America/New_York", chrono_tz::UTC, noon_2024(), 6, 18).unwrap();
    assert!(!ny.primary);
    assert_eq!(ny.zone, chrono_tz::America::New_York);
    let own = world_row("UTC", chrono_tz::UTC, noon_2024(), 6, 18).unwrap();
    assert!(own.primary);
    let etc = world_row("Etc/UTC", chrono_tz::UTC, noon_2024(), 6, 18).unwrap();
    assert!(!etc.primary);
    assert_eq!(offset_label_text(i32::MIN), "-596523h");
    assert_eq!(offset_label_text(i32::MAX), "+596523h");
}

#[test]
fn modes_headers_and_default_zone() {
    assert_eq!(ModeArg::Timer.panel(), AppMode::Countdown);
    assert_eq!(ModeArg::World.panel(), AppMode::World);
    assert_eq!(ModeArg::for_panel(AppMode::Countdown), ModeArg::Timer);
    assert_eq!(clocktop::world::header_label(chrono_tz::America::New_York), "NEW YORK ");
    let s = AppState::default();
    assert_eq!(s.active_tz(), chrono_tz::UTC);
    assert_eq!(*s.world_clocks(), vec!["America/New_York", "Europe/London", "Asia/Tokyo"]);
    assert!(s.now().unix_secs() > 1_700_000_000);
}
