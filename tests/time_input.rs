use esoscorepreview::time_input::parse_time_input;

#[test]
fn minutes_and_seconds() {
    assert_eq!(parse_time_input("15:00"), Some(900_000));
    assert_eq!(parse_time_input("0:59"), Some(59_000));
}

#[test]
fn hours_minutes_seconds_and_fraction() {
    assert_eq!(parse_time_input("1:02:03.4"), Some(3_723_400));
    assert_eq!(parse_time_input("0:59.99"), Some(59_990));
    assert_eq!(parse_time_input("0:01.005"), Some(1_005));
}

#[test]
fn fraction_cut_to_three_digits() {
    assert_eq!(parse_time_input("1:5.1234"), Some(65_123));
    assert_eq!(parse_time_input("5."), Some(5_000));
}

#[test]
fn seconds_alone() {
    assert_eq!(parse_time_input("45"), Some(45_000));
}

#[test]
fn malformed_fields_count_as_zero() {
    assert_eq!(parse_time_input("a:10"), Some(10_000));
    assert_eq!(parse_time_input(":"), Some(0));
    assert_eq!(parse_time_input("10.5.1"), Some(10_000));
    assert_eq!(parse_time_input("1:2x.5"), Some(60_500));
    assert_eq!(parse_time_input("0:3.5x"), Some(3_000));
    assert_eq!(parse_time_input("99999999999:00"), Some(0));
}

#[test]
fn rejected_inputs() {
    assert_eq!(parse_time_input(""), None);
    assert_eq!(parse_time_input("1:2:3:4"), None);
    assert_eq!(parse_time_input("1193:02:47.296"), None);
}

#[test]
fn largest_time() {
    assert_eq!(parse_time_input("1193:02:47.295"), Some(u32::MAX));
}
