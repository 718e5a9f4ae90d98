use silica::clock::mmss_from_duration;

#[test]
fn zero_seconds() {
    assert_eq!(mmss_from_duration(0), "00:00");
}

#[test]
fn two_minutes_five() {
    assert_eq!(mmss_from_duration(125), "02:05");
}

#[test]
fn minutes_do_not_roll_over_into_hours() {
    assert_eq!(mmss_from_duration(3661), "61:01");
}

#[test]
fn seconds_are_padded() {
    assert_eq!(mmss_from_duration(9), "00:09");
    assert_eq!(mmss_from_duration(10), "00:10");
    assert_eq!(mmss_from_duration(59), "00:59");
}

#[test]
fn minutes_are_padded() {
    assert_eq!(mmss_from_duration(60), "01:00");
    assert_eq!(mmss_from_duration(599), "09:59");
    assert_eq!(mmss_from_duration(600), "10:00");
}

#[test]
fn last_time_with_two_digits_of_minutes() {
    assert_eq!(mmss_from_duration(5999), "99:59");
}

#[test]
fn minutes_above_ninety_nine_take_more_digits() {
    assert_eq!(mmss_from_duration(6000), "100:00");
    assert_eq!(mmss_from_duration(60 * 1234 + 7), "1234:07");
}

#[test]
fn largest_time() {
    assert_eq!(mmss_from_duration(u64::MAX), "307445734561825860:15");
}

#[test]
fn agrees_with_the_standard_formatter() {
    for secs in (0..20000u64).step_by(7) {
        assert_eq!(mmss_from_duration(secs), format!("{:02}:{:02}", secs / 60, secs % 60));
    }
}
