use clocktop::{format_stopwatch_duration, resolve_timezone, tz_city_name, Duration};

#[test]
fn test_format_stopwatch_duration() {
    assert_eq!(
        format_stopwatch_duration(Duration::from_millis(123), false),
        "00:00.123"
    );
    assert_eq!(
        format_stopwatch_duration(
            Duration::from_secs(65).checked_add(Duration::from_millis(500)).unwrap(),
            false
        ),
        "01:05.500"
    );
    assert_eq!(
        format_stopwatch_duration(
            Duration::from_secs(3600).checked_add(Duration::from_millis(1)).unwrap(),
            false
        ),
        "01:00:00.001"
    );
    assert_eq!(
        format_stopwatch_duration(Duration::from_secs(65), true),
        "00:01:05.000"
    );
}

#[test]
fn test_resolve_timezone() {
    assert_eq!(resolve_timezone("UTC"), chrono_tz::UTC);
    assert_eq!(
        resolve_timezone("America/New_York"),
        chrono_tz::America::New_York
    );
    // Fallback checks (system local or UTC if none found)
    let resolved = resolve_timezone("Invalid/Timezone");
    // Must resolve to some timezone, typically UTC or system local Tz
    assert!(!resolved.name().is_empty());
}

#[test]
fn test_tz_city_name() {
    // Underscores replaced with spaces, only the city part after the last slash
    assert_eq!(tz_city_name(chrono_tz::America::New_York), "New York");
    assert_eq!(tz_city_name(chrono_tz::Australia::Lord_Howe), "Lord Howe");

    // Single-component zone — no slash, whole name used as-is
    assert_eq!(tz_city_name(chrono_tz::UTC), "UTC");

    // Zone whose city segment has no underscores
    assert_eq!(tz_city_name(chrono_tz::Europe::London), "London");
}
