use psc::calendar::CalendarDate;

fn date(year: i32, month: u32, day: u32) -> CalendarDate {
    CalendarDate::new(year, month, day).expect("a day that exists")
}

#[test]
fn new_keeps_the_numbers_of_a_day_that_exists() {
    let d = date(2024, 3, 7);
    assert_eq!(d.year(), 2024);
    assert_eq!(d.month(), 3);
    assert_eq!(d.day(), 7);
}

#[test]
fn new_knows_the_leap_years() {
    assert!(CalendarDate::new(2024, 2, 29).is_some());
    assert!(CalendarDate::new(2023, 2, 29).is_none());
    assert!(CalendarDate::new(1900, 2, 29).is_none());
    assert!(CalendarDate::new(2000, 2, 29).is_some());
    assert!(CalendarDate::new(-4, 2, 29).is_some());
    assert!(CalendarDate::new(-100, 2, 29).is_none());
    assert!(CalendarDate::new(-400, 2, 29).is_some());
    assert!(CalendarDate::new(2015, 2, 28).is_some());
}

#[test]
fn new_refuses_days_that_do_not_exist() {
    assert!(CalendarDate::new(2015, 0, 14).is_none());
    assert!(CalendarDate::new(2015, 13, 1).is_none());
    assert!(CalendarDate::new(2015, 1, 0).is_none());
    assert!(CalendarDate::new(2015, 1, 32).is_none());
    assert!(CalendarDate::new(2023, 4, 31).is_none());
    assert!(CalendarDate::new(2023, 4, 30).is_some());
    assert!(CalendarDate::new(2023, 12, 31).is_some());
}

#[test]
fn new_refuses_years_out_of_range() {
    assert!(CalendarDate::new(262_142, 12, 31).is_some());
    assert!(CalendarDate::new(262_143, 1, 1).is_none());
    assert!(CalendarDate::new(-262_143, 1, 1).is_some());
    assert!(CalendarDate::new(-262_144, 12, 31).is_none());
    assert!(CalendarDate::new(400_000, 1, 1).is_none());
    assert!(CalendarDate::new(i32::MAX, 1, 1).is_none());
    assert!(CalendarDate::new(i32::MIN, 1, 1).is_none());
}

#[test]
fn new_agrees_with_chrono_on_which_days_exist() {
    for year in [-401, -400, -100, -4, -1, 0, 1, 4, 100, 400, 1900, 2000, 2023, 2024] {
        for month in 0..=13u32 {
            for day in 0..=32u32 {
                assert_eq!(
                    CalendarDate::new(year, month, day).is_some(),
                    chrono::NaiveDate::from_ymd_opt(year, month, day).is_some(),
                    "{year}-{month}-{day}"
                );
            }
        }
    }
}

#[test]
fn iso_text_pads_month_and_day() {
    assert_eq!(date(2015, 9, 5).to_iso_string(), "2015-09-05");
    assert_eq!(date(2024, 12, 31).to_iso_string(), "2024-12-31");
}

#[test]
fn iso_text_pads_the_year_to_four_digits() {
    assert_eq!(date(0, 1, 1).to_iso_string(), "0000-01-01");
    assert_eq!(date(7, 1, 1).to_iso_string(), "0007-01-01");
    assert_eq!(date(999, 1, 1).to_iso_string(), "0999-01-01");
    assert_eq!(date(9999, 12, 31).to_iso_string(), "9999-12-31");
}

#[test]
fn iso_text_signs_years_that_four_digits_cannot_hold() {
    assert_eq!(date(-1, 1, 1).to_iso_string(), "-0001-01-01");
    assert_eq!(date(10000, 12, 31).to_iso_string(), "+10000-12-31");
    assert_eq!(date(-262_143, 1, 1).to_iso_string(), "-262143-01-01");
    assert_eq!(date(262_142, 12, 31).to_iso_string(), "+262142-12-31");
}

#[test]
fn parse_reads_an_iso_date() {
    assert_eq!(CalendarDate::parse("2015-09-18"), Some(date(2015, 9, 18)));
    assert_eq!(CalendarDate::parse("2016-04-06"), Some(date(2016, 4, 6)));
    assert_eq!(CalendarDate::parse("+12345-6-7"), Some(date(12345, 6, 7)));
}

#[test]
fn parse_refuses_what_is_no_date() {
    assert_eq!(CalendarDate::parse("foo"), None);
    assert_eq!(CalendarDate::parse(""), None);
    assert_eq!(CalendarDate::parse("2015-02-30"), None);
    assert_eq!(CalendarDate::parse("2015-13-01"), None);
    assert_eq!(CalendarDate::parse("2015-09-18T00:00:00"), None);
}

#[test]
fn parse_reads_back_what_iso_text_wrote() {
    for d in [date(2024, 2, 29), date(1, 1, 1), date(0, 12, 31), date(-1, 6, 15), date(10000, 1, 1)] {
        assert_eq!(CalendarDate::parse(&d.to_iso_string()), Some(d));
    }
}

#[test]
fn from_timestamp_gives_the_utc_day() {
    assert_eq!(CalendarDate::from_timestamp(0), Some(date(1970, 1, 1)));
    assert_eq!(CalendarDate::from_timestamp(86_399), Some(date(1970, 1, 1)));
    assert_eq!(CalendarDate::from_timestamp(86_400), Some(date(1970, 1, 2)));
    assert_eq!(CalendarDate::from_timestamp(-1), Some(date(1969, 12, 31)));
    assert_eq!(CalendarDate::from_timestamp(1_431_648_000), Some(date(2015, 5, 15)));
    assert_eq!(CalendarDate::from_timestamp(951_782_400), Some(date(2000, 2, 29)));
}

#[test]
fn from_timestamp_refuses_moments_out_of_range() {
    assert_eq!(CalendarDate::from_timestamp(i64::MAX), None);
    assert_eq!(CalendarDate::from_timestamp(i64::MIN), None);
}

#[test]
fn today_is_a_day_of_this_century() {
    let today = CalendarDate::today().expect("the clock stands after 1970");
    assert!(today.year() >= 2024);
    assert!(today.year() < 2100);
    assert_eq!(CalendarDate::new(today.year(), today.month(), today.day()), Some(today));
}

#[test]
fn from_clock_gives_the_day_of_the_reading() {
    assert_eq!(CalendarDate::from_clock(Some(0)), Some(date(1970, 1, 1)));
    assert_eq!(CalendarDate::from_clock(Some(86_399)), Some(date(1970, 1, 1)));
    assert_eq!(CalendarDate::from_clock(Some(86_400)), Some(date(1970, 1, 2)));
    assert_eq!(CalendarDate::from_clock(Some(1_431_648_000)), Some(date(2015, 5, 15)));
}

#[test]
fn from_clock_gives_no_day_without_a_reading_that_has_one() {
    assert_eq!(CalendarDate::from_clock(None), None);
    assert_eq!(CalendarDate::from_clock(Some(u64::MAX)), None);
    assert_eq!(CalendarDate::from_clock(Some(i64::MAX as u64)), None);
    assert_eq!(CalendarDate::from_clock(Some(i64::MAX as u64 + 1)), None);
}

#[test]
fn from_clock_agrees_with_from_timestamp() {
    for seconds in [0u64, 1, 59, 86_400, 951_782_400, 1_700_000_000, 4_102_444_800] {
        assert_eq!(
            CalendarDate::from_clock(Some(seconds)),
            CalendarDate::from_timestamp(seconds as i64)
        );
    }
}
