use netease_watcher::clock::format_seconds_to_hhmm;

#[test]
fn formats_minutes_and_seconds() {
    assert_eq!(format_seconds_to_hhmm(0), "00:00");
    assert_eq!(format_seconds_to_hhmm(5), "00:05");
    assert_eq!(format_seconds_to_hhmm(65), "01:05");
    assert_eq!(format_seconds_to_hhmm(599), "09:59");
    assert_eq!(format_seconds_to_hhmm(3600), "60:00");
    assert_eq!(format_seconds_to_hhmm(6001), "100:01");
}

#[test]
fn negative_counts_keep_the_sign_in_both_parts() {
    assert_eq!(format_seconds_to_hhmm(-65), format!("{:02}:{:02}", -1, -5));
    assert_eq!(format_seconds_to_hhmm(-30), "00:-30");
    assert_eq!(format_seconds_to_hhmm(-60), "-1:00");
}

#[test]
fn extreme_counts() {
    let expect = |s: i64| {
        let m = s / 60;
        format!("{:02}:{:02}", m, s - m * 60)
    };
    assert_eq!(format_seconds_to_hhmm(i64::MAX), expect(i64::MAX));
    assert_eq!(format_seconds_to_hhmm(i64::MIN), expect(i64::MIN));
}
