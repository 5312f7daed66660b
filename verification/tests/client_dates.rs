use timex_datalink::calendar::{
    civil_time, days_from_monday, two_digit_year, MAX_UNIX_SECONDS, MIN_UNIX_SECONDS,
};
use timex_datalink::client::protocol4::{DateFormat, DateTime, TimeOfDay};

#[test]
fn dates_in_every_format() {
    let date = DateTime::new(2022, 9, 5, 11, 39, 44);
    assert_eq!(date.format(&DateFormat::MonthDayYear), "09-05-2022");
    assert_eq!(date.format(&DateFormat::DayMonthYear), "05-09-2022");
    assert_eq!(date.format(&DateFormat::YearMonthDay), "2022-09-05");
    assert_eq!(date.format(&DateFormat::MonthDotDayYear), "09.05.2022");
    assert_eq!(date.format(&DateFormat::DayDotMonthYear), "05.09.2022");
    assert_eq!(date.format(&DateFormat::YearDotMonthDay), "2022.09.05");
}

#[test]
fn numbers_keep_all_their_digits() {
    // fields wider than their place are written out in full
    let date = DateTime::new(65535, 255, 100, 0, 0, 0);
    assert_eq!(date.format(&DateFormat::YearMonthDay), "65535-255-100");
    let early = DateTime::new(7, 0, 10, 0, 0, 0);
    assert_eq!(early.format(&DateFormat::DayDotMonthYear), "10.00.0007");
    assert_eq!(DateTime::default().format(&DateFormat::MonthDayYear), "01-01-2000");
}

#[test]
fn times_of_day_on_both_clocks() {
    assert_eq!(TimeOfDay::new(0, 0).format(), "00:00");
    assert_eq!(TimeOfDay::new(0, 0).format_12h(), "12:00 AM");
    assert_eq!(TimeOfDay::new(9, 5).format(), "09:05");
    assert_eq!(TimeOfDay::new(9, 5).format_12h(), "09:05 AM");
    assert_eq!(TimeOfDay::new(11, 59).format_12h(), "11:59 AM");
    assert_eq!(TimeOfDay::new(12, 0).format_12h(), "12:00 PM");
    assert_eq!(TimeOfDay::new(13, 7).format_12h(), "01:07 PM");
    assert_eq!(TimeOfDay::new(23, 59).format(), "23:59");
    assert_eq!(TimeOfDay::new(23, 59).format_12h(), "11:59 PM");
    assert_eq!(TimeOfDay::new(200, 100).format(), "200:100");
    assert_eq!(TimeOfDay::new(200, 100).format_12h(), "188:100 PM");
    assert_eq!(TimeOfDay::default().format(), "00:00");
}

#[test]
fn rough_date_of_a_timestamp() {
    let t = DateTime::from_unix_seconds(0);
    assert_eq!((t.year, t.month, t.day, t.hour, t.minute, t.second), (1970, 1, 1, 0, 0, 0));
    // 2022-09-05 11:39:44 UTC; the date is rough: 19240 days are 52
    // years of 365 days and 260 days, which are 8 months of 31 days and 12
    let t = DateTime::from_unix_seconds(1_662_377_984);
    assert_eq!((t.year, t.month, t.day, t.hour, t.minute, t.second), (2022, 9, 13, 11, 39, 44));
    let t = TimeOfDay::from_unix_seconds(1_662_377_984);
    assert_eq!((t.hour, t.minute), (11, 39));
    // years count in 16 bits
    let t = DateTime::from_unix_seconds(u64::MAX);
    assert_eq!(t.year, ((1970 + (u64::MAX / 86_400 / 365) % 65_536) % 65_536) as u16);
    assert_eq!(t.second, (u64::MAX % 60) as u8);
}

#[test]
fn clock_gives_a_time_of_day() {
    let now = DateTime::now();
    assert!(now.year >= 2024);
    assert!(1 <= now.month && now.month <= 12);
    assert!(1 <= now.day && now.day <= 31);
    assert!(now.hour < 24 && now.minute < 60 && now.second < 60);
    let now = TimeOfDay::now();
    assert!(now.hour < 24 && now.minute < 60);
}

#[test]
fn calendar_fields_of_known_times() {
    let t = civil_time(0).unwrap();
    assert_eq!(
        (t.year, t.month, t.day, t.hour, t.minute, t.second, t.weekday),
        (1970, 1, 1, 0, 0, 0, 3)
    );
    // 2022-10-15 13:20:30 UTC, a Saturday
    let t = civil_time(1_665_840_030).unwrap();
    assert_eq!(
        (t.year, t.month, t.day, t.hour, t.minute, t.second, t.weekday),
        (2022, 10, 15, 13, 20, 30, 5)
    );
    // one second before the epoch: the last second of a Wednesday
    let t = civil_time(-1).unwrap();
    assert_eq!(
        (t.year, t.month, t.day, t.hour, t.minute, t.second, t.weekday),
        (1969, 12, 31, 23, 59, 59, 2)
    );
    assert_eq!(two_digit_year(2022), 22);
    assert_eq!(two_digit_year(2000), 0);
    assert_eq!(two_digit_year(1999), 99);
}

#[test]
fn calendar_ends_where_the_limits_say() {
    let first = civil_time(MIN_UNIX_SECONDS).unwrap();
    assert_eq!((first.year, first.month, first.day), (-262_143, 1, 1));
    assert_eq!((first.hour, first.minute, first.second), (0, 0, 0));
    assert!(civil_time(MIN_UNIX_SECONDS - 1).is_none());
    let last = civil_time(MAX_UNIX_SECONDS).unwrap();
    assert_eq!((last.year, last.month, last.day), (262_142, 12, 31));
    assert_eq!((last.hour, last.minute, last.second), (23, 59, 59));
    assert!(civil_time(MAX_UNIX_SECONDS + 1).is_none());
    assert!(civil_time(i64::MAX).is_none());
    assert!(civil_time(i64::MIN).is_none());
}

#[test]
fn time_of_day_is_the_remainder_of_the_seconds() {
    for secs in [
        -8_334_601_228_800i64,
        -86_401,
        -86_400,
        -3_601,
        -61,
        -1,
        0,
        59,
        60,
        3_599,
        86_399,
        86_400,
        951_782_400,
        8_210_266_876_799,
    ] {
        let t = civil_time(secs).unwrap();
        let of_day = secs.rem_euclid(86_400);
        assert_eq!(t.hour as i64, of_day / 3_600);
        assert_eq!(t.minute as i64, (of_day / 60) % 60);
        assert_eq!(t.second as i64, secs.rem_euclid(60));
        assert!(1 <= t.month && t.month <= 12 && 1 <= t.day && t.day <= 31 && t.weekday <= 6);
        assert_eq!(t.weekday as i64, (secs.div_euclid(86_400) + 3).rem_euclid(7));
    }
}

#[test]
fn weekday_goes_round_from_the_thursday_of_the_epoch() {
    // every 997th hour over some 90000 years either side of the epoch
    let mut secs: i64 = -2_900_000_000_000;
    while secs < 2_900_000_000_000 {
        let t = civil_time(secs).unwrap();
        assert_eq!(t.weekday as i64, (secs.div_euclid(86_400) + 3).rem_euclid(7));
        let date = chrono::NaiveDate::from_ymd_opt(t.year, t.month as u32, t.day as u32).unwrap();
        assert_eq!(
            t.weekday as u32,
            chrono::Datelike::weekday(&date).num_days_from_monday()
        );
        secs += 997 * 3_600 * 211;
    }
    // every day of 2022
    for day in 18_993..19_358i64 {
        let t = civil_time(day * 86_400 + 43_200).unwrap();
        assert_eq!(t.year, 2022);
        assert_eq!(t.weekday as i64, (day + 3) % 7);
    }
    // 2022-10-15, a Saturday, is day 19280
    assert_eq!(civil_time(19_280 * 86_400).unwrap().weekday, 5);
}

#[test]
fn weekday_of_a_date_outside_the_calendar() {
    // a month that the calendar lacks counts as no days
    assert_eq!(days_from_monday(2022, 0, 0), days_from_monday(2021, 12, 31));
    assert_eq!(days_from_monday(2022, 13, 1), days_from_monday(2022, 1, 1));
    assert_eq!(days_from_monday(1, 1, 1), 0);
    assert_eq!(days_from_monday(0, 12, 31), 6);
}
