use focus_timer::{split_seconds, TimeSpan};

#[test]
fn seconds_up_to_a_minute() {
    assert_eq!(split_seconds(0), TimeSpan::Seconds { sec: 0 });
    assert_eq!(split_seconds(59), TimeSpan::Seconds { sec: 59 });
    assert_eq!(split_seconds(60), TimeSpan::Seconds { sec: 60 });
}

#[test]
fn negative_seconds_stay_seconds() {
    assert_eq!(split_seconds(-1), TimeSpan::Seconds { sec: -1 });
    assert_eq!(split_seconds(-100_000), TimeSpan::Seconds { sec: -100_000 });
    assert_eq!(split_seconds(i64::MIN), TimeSpan::Seconds { sec: i64::MIN });
}

#[test]
fn minutes_up_to_an_hour() {
    assert_eq!(split_seconds(61), TimeSpan::Minutes { min: 1, sec: 1 });
    assert_eq!(split_seconds(125), TimeSpan::Minutes { min: 2, sec: 5 });
    assert_eq!(split_seconds(3_599), TimeSpan::Minutes { min: 59, sec: 59 });
    assert_eq!(split_seconds(3_600), TimeSpan::Minutes { min: 60, sec: 0 });
}

#[test]
fn hours_up_to_a_day() {
    assert_eq!(split_seconds(3_601), TimeSpan::Hours { hours: 1, min: 0, sec: 1 });
    assert_eq!(split_seconds(7_384), TimeSpan::Hours { hours: 2, min: 3, sec: 4 });
    assert_eq!(split_seconds(86_399), TimeSpan::Hours { hours: 23, min: 59, sec: 59 });
    assert_eq!(split_seconds(86_400), TimeSpan::Hours { hours: 24, min: 0, sec: 0 });
}

#[test]
fn days_beyond_a_day() {
    assert_eq!(split_seconds(86_401), TimeSpan::Days { days: 1, hr: 0, min: 0, sec: 1 });
    assert_eq!(split_seconds(183_845), TimeSpan::Days { days: 2, hr: 3, min: 4, sec: 5 });
    assert_eq!(
        split_seconds(i64::MAX),
        TimeSpan::Days { days: 106_751_991_167_300, hr: 15, min: 30, sec: 7 }
    );
}

#[test]
fn parts_add_up_to_the_seconds() {
    for seconds in [61i64, 3_600, 3_601, 86_400, 86_401, 1_000_000, 31_536_000] {
        let total = match split_seconds(seconds) {
            TimeSpan::Seconds { sec } => sec,
            TimeSpan::Minutes { min, sec } => min * 60 + sec,
            TimeSpan::Hours { hours, min, sec } => hours * 3_600 + min * 60 + sec,
            TimeSpan::Days { days, hr, min, sec } => days * 86_400 + hr * 3_600 + min * 60 + sec,
        };
        assert_eq!(total, seconds);
    }
}
