use rumble_tools::timestamps::{days_to_ymd, TimestampFormat};

#[test]
fn dates_of_days() {
    assert_eq!(days_to_ymd(0), (1970, 1, 1));
    assert_eq!(days_to_ymd(58), (1970, 2, 28));
    assert_eq!(days_to_ymd(59), (1970, 3, 1));
    assert_eq!(days_to_ymd(789), (1972, 2, 29));
    assert_eq!(days_to_ymd(11016), (2000, 2, 29));
    assert_eq!(days_to_ymd(11017), (2000, 3, 1));
    assert_eq!(days_to_ymd(20103), (2025, 1, 15));
    assert_eq!(days_to_ymd(47540), (2100, 2, 28));
    assert_eq!(days_to_ymd(47541), (2100, 3, 1));
}

#[test]
fn days_follow_each_other() {
    let mut last = days_to_ymd(0);
    for days in 1..200_000 {
        let date = days_to_ymd(days);
        let next_day = date == (last.0, last.1, last.2 + 1);
        let next_month = date == (last.0, last.1 + 1, 1) && last.2 >= 28;
        let next_year = date == (last.0 + 1, 1, 1) && last.1 == 12 && last.2 == 31;
        assert!(next_day || next_month || next_year, "{:?} after {:?}", date, last);
        last = date;
    }
}

#[test]
fn years_beyond_32_bits_are_cut() {
    let (year, month, day) = days_to_ymd(213_503_982_334_601);
    assert_eq!(year, 584_554_051_223i64 as i32);
    assert!((1..=12).contains(&month) && (1..=31).contains(&day));
}

#[test]
fn times_in_every_format() {
    let secs = 20103 * 86400 + 14 * 3600 + 30 * 60 + 5;
    assert_eq!(TimestampFormat::Time24h.format(secs, 0), "14:30:05");
    assert_eq!(TimestampFormat::Time12h.format(secs, 0), "2:30:05 PM");
    assert_eq!(TimestampFormat::DateTime24h.format(secs, 0), "2025-01-15 14:30:05");
    assert_eq!(TimestampFormat::DateTime12h.format(secs, 0), "2025-01-15 2:30:05 PM");
    assert_eq!(TimestampFormat::Time12h.format(0, 0), "12:00:00 AM");
    assert_eq!(TimestampFormat::Time12h.format(12 * 3600, 0), "12:00:00 PM");
    assert_eq!(TimestampFormat::Time12h.format(11 * 3600 + 59, 0), "11:00:59 AM");
}

#[test]
fn ages_in_the_largest_unit() {
    let format = TimestampFormat::Relative;
    assert_eq!(format.format(0, 59), "just now");
    assert_eq!(format.format(0, 60), "1m ago");
    assert_eq!(format.format(0, 300), "5m ago");
    assert_eq!(format.format(0, 3599), "59m ago");
    assert_eq!(format.format(0, 3600), "1h ago");
    assert_eq!(format.format(0, 86400), "1d ago");
}

#[test]
fn formats_are_offered_by_name() {
    let labels: Vec<&str> = TimestampFormat::all().iter().map(|f| f.label()).collect();
    assert_eq!(
        labels,
        vec![
            "24-hour (14:30:05)",
            "12-hour (2:30:05 PM)",
            "Date + 24-hour",
            "Date + 12-hour",
            "Relative (5m ago)"
        ]
    );
    assert_eq!(TimestampFormat::default(), TimestampFormat::Time24h);
}
