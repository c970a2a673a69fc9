use esoscorepreview::duration::{calculate_time, format_duration_padded};

#[test]
fn rounding_carries_into_minutes() {
    assert_eq!(calculate_time(59_600), "1:00");
}

#[test]
fn rounding_carries_into_hours() {
    assert_eq!(calculate_time(3_599_600), "1:00:00");
}

#[test]
fn half_second_rounds_up() {
    assert_eq!(calculate_time(500), "0:01");
    assert_eq!(calculate_time(499), "0:00");
    assert_eq!(calculate_time(0), "0:00");
}

#[test]
fn rounded_layouts() {
    assert_eq!(calculate_time(899_499), "14:59");
    assert_eq!(calculate_time(900_000), "15:00");
    assert_eq!(calculate_time(65_000), "1:05");
    assert_eq!(calculate_time(3_723_004), "1:02:03");
    assert_eq!(calculate_time(36_005_000), "10:00:05");
    assert_eq!(calculate_time(u32::MAX), "1193:02:47");
}

#[test]
fn padded_layout() {
    assert_eq!(format_duration_padded(0), "00:00:00.000");
    assert_eq!(format_duration_padded(900_000), "00:15:00.000");
    assert_eq!(format_duration_padded(3_723_004), "01:02:03.004");
    assert_eq!(format_duration_padded(59_999), "00:00:59.999");
    assert_eq!(format_duration_padded(45_670), "00:00:45.670");
    assert_eq!(format_duration_padded(360_000_000), "100:00:00.000");
}
