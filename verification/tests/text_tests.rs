use navrs::text::{decimal_i64, decimal_i64_width2, decimal_u64, format_minutes_seconds, format_secs_duration};

#[test]
fn secs_duration_formats() {
    assert_eq!(format_secs_duration(125), "2:05");
    assert_eq!(format_secs_duration(0), "0:00");
    assert_eq!(format_secs_duration(59), "0:59");
    assert_eq!(format_secs_duration(600), "10:00");
    assert_eq!(format_secs_duration(-61), "-1:-1");
    assert_eq!(format_secs_duration(-5), "0:-5");
    assert_eq!(format_secs_duration(i32::MAX), format!("{}:{:02}", i32::MAX / 60, i32::MAX % 60));
    assert_eq!(format_secs_duration(i32::MIN), format!("{}:{:02}", i32::MIN / 60, i32::MIN % 60));
}

#[test]
fn minutes_seconds_with_dot() {
    assert_eq!(format_minutes_seconds(61, "."), "1.01");
}

#[test]
fn decimals() {
    assert_eq!(decimal_u64(0), "0");
    assert_eq!(decimal_u64(u64::MAX), u64::MAX.to_string());
    assert_eq!(decimal_i64(-1234), "-1234");
    assert_eq!(decimal_i64(i64::MIN), i64::MIN.to_string());
    assert_eq!(decimal_i64_width2(7), "07");
    assert_eq!(decimal_i64_width2(-7), "-7");
    assert_eq!(decimal_i64_width2(42), "42");
}
