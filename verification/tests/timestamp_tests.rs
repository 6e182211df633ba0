use stride::timestamp::{millis_to_string, seconds_to_string};

#[test]
fn millis_under_an_hour() {
    assert_eq!(millis_to_string(0), "00:00");
    assert_eq!(millis_to_string(999), "00:00");
    assert_eq!(millis_to_string(1_000), "00:01");
    assert_eq!(millis_to_string(61_000), "01:01");
    assert_eq!(millis_to_string(3_599_999), "59:59");
}

#[test]
fn millis_with_hours() {
    assert_eq!(millis_to_string(3_600_000), "01:00:00");
    assert_eq!(millis_to_string(3_661_000), "01:01:01");
    assert_eq!(millis_to_string(86_399_999), "23:59:59");
}

#[test]
fn millis_with_days() {
    assert_eq!(millis_to_string(86_400_000), "01:00:00:00");
    assert_eq!(millis_to_string(90_061_000), "01:01:01:01");
    assert_eq!(millis_to_string(29 * 86_400_000), "29:00:00:00");
}

#[test]
fn millis_with_months_field() {
    assert_eq!(millis_to_string(2_592_000_000), "00:00:00:00:00");
    assert_eq!(millis_to_string(31 * 86_400_000 + 5_000), "00:01:00:00:05");
}

#[test]
fn millis_with_years_field() {
    assert_eq!(millis_to_string(31_536_000_000), "994,519,296,000,000:00:05:00:00:00");
    assert_eq!(
        millis_to_string(584_942_417_355_999),
        "18,446,744,073,707,280,000:00:06:20:49:15"
    );
}

#[test]
fn millis_whose_years_field_is_wider_than_the_machine_word() {
    assert_eq!(
        millis_to_string(584_942_417_356_000),
        "18,446,744,073,738,816,000:00:06:20:49:16"
    );
    assert_eq!(
        millis_to_string(u64::MAX),
        "581,736,521,108,504,400,336,000:00:04:14:25:51"
    );
}

#[test]
fn seconds_under_an_hour() {
    assert_eq!(seconds_to_string(0), "0:00");
    assert_eq!(seconds_to_string(5), "0:05");
    assert_eq!(seconds_to_string(65), "1:05");
    assert_eq!(seconds_to_string(3599), "59:59");
}

#[test]
fn seconds_from_an_hour_on() {
    assert_eq!(seconds_to_string(3600), "1:00:00");
    assert_eq!(seconds_to_string(3661), "1:01:01");
    assert_eq!(seconds_to_string(36_000 + 59), "10:00:59");
    assert_eq!(seconds_to_string(u64::MAX), "5124095576030431:00:15");
}
