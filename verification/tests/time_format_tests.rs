use amberol::time_format::format_time;

#[test]
fn format_time_start_of_song() {
    assert_eq!(format_time(0, 0), "0:00 / 0:00");
}

#[test]
fn format_time_pads_seconds() {
    assert_eq!(format_time(65, 3600), "1:05 / 60:00");
    assert_eq!(format_time(59, 61), "0:59 / 1:01");
}

#[test]
fn format_time_long_durations() {
    assert_eq!(format_time(600, 6000), "10:00 / 100:00");
    assert_eq!(format_time(3599, 3661), "59:59 / 61:01");
}

#[test]
fn format_time_largest_values() {
    let expected_minutes = u64::MAX / 60;
    let expected_seconds = u64::MAX % 60;
    let side = format!("{}:{:02}", expected_minutes, expected_seconds);
    assert_eq!(format_time(u64::MAX, u64::MAX), format!("{} / {}", side, side));
}

#[test]
fn format_time_matches_std_formatting() {
    for seconds in [0u64, 1, 9, 10, 59, 60, 61, 119, 600, 12345, 987654] {
        for total in [0u64, 7, 60, 3600, 86399] {
            let expected = format!(
                "{}:{:02} / {}:{:02}",
                seconds / 60,
                seconds % 60,
                total / 60,
                total % 60
            );
            assert_eq!(format_time(seconds, total), expected);
        }
    }
}

#[test]
fn format_time_different_inputs_differ() {
    assert_ne!(format_time(61, 0), format_time(1, 60));
    assert_ne!(format_time(0, 61), format_time(0, 16));
}
