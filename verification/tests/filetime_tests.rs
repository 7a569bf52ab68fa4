use chrono::NaiveDate;
use pff::filetime::FileTime;

#[test]
fn unix_epoch_is_zero_seconds() {
    assert_eq!(FileTime(116_444_736_000_000_000).file_time_to_unix_seconds(), 0);
}

#[test]
fn whole_seconds_are_counted() {
    assert_eq!(FileTime(116_444_736_000_000_000 + 10_000_000).file_time_to_unix_seconds(), 1);
    assert_eq!(FileTime(116_444_736_000_000_000 + 19_999_999).file_time_to_unix_seconds(), 1);
    assert_eq!(FileTime(116_444_736_000_000_000 - 10_000_000).file_time_to_unix_seconds(), -1);
    assert_eq!(FileTime(116_444_736_000_000_000 - 19_999_999).file_time_to_unix_seconds(), -1);
    assert_eq!(FileTime(116_444_736_000_000_000 - 1).file_time_to_unix_seconds(), 0);
}

#[test]
fn start_of_1601_is_before_the_epoch() {
    assert_eq!(FileTime(0).file_time_to_unix_seconds(), -11_644_473_600);
}

#[test]
fn extremes_do_not_overflow() {
    assert_eq!(FileTime(i64::MAX).file_time_to_unix_seconds(), 910_692_730_085);
    assert_eq!(FileTime(i64::MIN).file_time_to_unix_seconds(), -933_981_677_285);
    FileTime(i64::MAX).filetime_to_naive_dt();
    FileTime(i64::MIN).filetime_to_naive_dt();
}

#[test]
fn known_moment_becomes_its_date_and_time() {
    // 2015-05-15 00:00:00 is 1431648000 seconds after the epoch.
    let steps = 116_444_736_000_000_000 + 1_431_648_000 * 10_000_000;
    let expected = NaiveDate::from_ymd_opt(2015, 5, 15).unwrap().and_hms_opt(0, 0, 0).unwrap();
    assert_eq!(FileTime(steps).filetime_to_naive_dt(), expected);
    let later = NaiveDate::from_ymd_opt(2015, 5, 15).unwrap().and_hms_opt(13, 7, 9).unwrap();
    let steps = steps + (13 * 3600 + 7 * 60 + 9) * 10_000_000 + 5;
    assert_eq!(FileTime(steps).filetime_to_naive_dt(), later);
}

#[test]
fn start_of_1601_is_that_date() {
    let expected = NaiveDate::from_ymd_opt(1601, 1, 1).unwrap().and_hms_opt(0, 0, 0).unwrap();
    assert_eq!(FileTime(0).filetime_to_naive_dt(), expected);
}
