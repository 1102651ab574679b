use energy_bill::reading::{ReadTimestamp, Weekday};

#[test]
fn weekday_follows_the_date() {
    assert_eq!(ReadTimestamp::new(2024, 1, 7, 0, 0, 0).unwrap().weekday, Weekday::Sunday);
    assert_eq!(ReadTimestamp::new(2024, 1, 8, 0, 0, 0).unwrap().weekday, Weekday::Monday);
    assert_eq!(ReadTimestamp::new(2000, 2, 29, 12, 0, 0).unwrap().weekday, Weekday::Tuesday);
    assert_eq!(ReadTimestamp::new(1970, 1, 1, 0, 0, 0).unwrap().weekday, Weekday::Thursday);
}

#[test]
fn missing_days_and_times_are_rejected() {
    assert!(ReadTimestamp::new(2023, 2, 29, 0, 0, 0).is_none());
    assert!(ReadTimestamp::new(2024, 4, 31, 0, 0, 0).is_none());
    assert!(ReadTimestamp::new(2024, 13, 1, 0, 0, 0).is_none());
    assert!(ReadTimestamp::new(2024, 1, 1, 24, 0, 0).is_none());
    assert!(ReadTimestamp::new(2024, 1, 1, 0, 60, 0).is_none());
    assert!(ReadTimestamp::new(400000, 1, 1, 0, 0, 0).is_none());
}

#[test]
fn parses_day_month_year_hour_minute() {
    let t = ReadTimestamp::parse("08-01-2024 03:30").unwrap();
    assert_eq!((t.year, t.month, t.day, t.hour, t.minute, t.second), (2024, 1, 8, 3, 30, 0));
    assert_eq!(t.weekday, Weekday::Monday);
    assert_eq!(t.seconds_since_midnight(), 3 * 3600 + 30 * 60);
}

#[test]
fn rejects_malformed_timestamps() {
    assert!(ReadTimestamp::parse("2024-01-08 03:30").is_none());
    assert!(ReadTimestamp::parse("08-01-2024 24:00").is_none());
    assert!(ReadTimestamp::parse("31-04-2024 10:00").is_none());
    assert!(ReadTimestamp::parse("").is_none());
}

#[test]
fn supported_years_end_with_262142() {
    assert!(ReadTimestamp::new(262142, 12, 31, 23, 59, 59).is_some());
    assert!(ReadTimestamp::new(262143, 1, 1, 0, 0, 0).is_none());
    assert!(ReadTimestamp::new(-262143, 1, 1, 0, 0, 0).is_some());
    assert!(ReadTimestamp::new(-262144, 12, 31, 0, 0, 0).is_none());
}

#[test]
fn well_formed_timestamps() {
    let t = ReadTimestamp::new(2024, 1, 7, 10, 0, 0).unwrap();
    assert!(t.is_well_formed());
    let wrong_day = ReadTimestamp { weekday: Weekday::Monday, ..t };
    assert!(!wrong_day.is_well_formed());
    let no_such_hour = ReadTimestamp { hour: 24, ..t };
    assert!(!no_such_hour.is_well_formed());
}
