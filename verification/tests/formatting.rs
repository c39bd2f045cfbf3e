use ncmp_rust::text::{div_rem_sixty, push_decimal};
use ncmp_rust::utils::{count_groups, fmt_groups, fmt_time, Padding};

fn numeral(n: i64) -> String {
    let mut out = String::new();
    push_decimal(&mut out, n);
    out
}

#[test]
fn zero_has_no_group_and_no_text() {
    assert_eq!(fmt_time(0), (0, String::new()));
}

#[test]
fn sixty_five_seconds() {
    assert_eq!(fmt_time(65), (2, "01:05".to_string()));
}

#[test]
fn an_hour_a_minute_a_second() {
    assert_eq!(fmt_time(3661), (3, "01:01:01".to_string()));
    assert_eq!(fmt_groups(3661, 3, Padding::FromTen), "01:01:01");
}

#[test]
fn ten_is_padded_in_the_total_only() {
    assert_eq!(fmt_time(10), (1, "010".to_string()));
    assert_eq!(fmt_groups(10, 1, Padding::AboveTen), "010");
    assert_eq!(fmt_groups(10, 1, Padding::FromTen), "10");
    assert_eq!(fmt_time(600), (2, "010:00".to_string()));
    assert_eq!(fmt_groups(600, 2, Padding::FromTen), "10:00");
    assert_eq!(fmt_time(3610), (3, "01:00:010".to_string()));
    assert_eq!(fmt_groups(3610, 3, Padding::FromTen), "01:00:10");
}

#[test]
fn groups_around_ten() {
    assert_eq!(fmt_time(9), (1, "09".to_string()));
    assert_eq!(fmt_time(11), (1, "11".to_string()));
    assert_eq!(fmt_time(59), (1, "59".to_string()));
    assert_eq!(fmt_time(60), (2, "01:00".to_string()));
    assert_eq!(fmt_groups(9, 1, Padding::FromTen), "09");
    assert_eq!(fmt_groups(11, 1, Padding::FromTen), "11");
}

#[test]
fn a_negative_duration_has_no_group() {
    assert_eq!(fmt_time(-5), (0, String::new()));
    assert_eq!(fmt_time(i64::MIN), (0, String::new()));
}

#[test]
fn the_longest_duration_has_eleven_groups() {
    let (count, text) = fmt_time(i64::MAX);
    assert_eq!(count, 11);
    assert_eq!(text, "15:15:13:34:32:31:55:20:15:30:07");
    assert_eq!(count_groups(i64::MAX), 11);
}

#[test]
fn count_of_groups() {
    assert_eq!(count_groups(0), 0);
    assert_eq!(count_groups(-1), 0);
    assert_eq!(count_groups(1), 1);
    assert_eq!(count_groups(59), 1);
    assert_eq!(count_groups(60), 2);
    assert_eq!(count_groups(3599), 2);
    assert_eq!(count_groups(3600), 3);
}

#[test]
fn elapsed_in_a_fixed_number_of_groups() {
    assert_eq!(fmt_groups(5, 0, Padding::FromTen), "");
    assert_eq!(fmt_groups(5, 1, Padding::FromTen), "05");
    assert_eq!(fmt_groups(65, 1, Padding::FromTen), "05");
    assert_eq!(fmt_groups(65, 2, Padding::FromTen), "01:05");
    assert_eq!(fmt_groups(65, 3, Padding::FromTen), "00:01:05");
    assert_eq!(fmt_groups(0, 2, Padding::FromTen), "00:00");
}

#[test]
fn elapsed_below_zero() {
    assert_eq!(fmt_groups(-5, 1, Padding::FromTen), "0-5");
    assert_eq!(fmt_groups(-61, 2, Padding::FromTen), "0-1:0-1");
    assert_eq!(fmt_groups(-600, 2, Padding::FromTen), "0-10:00");
}

#[test]
fn division_rounds_towards_zero() {
    assert_eq!(div_rem_sixty(125), (2, 5));
    assert_eq!(div_rem_sixty(-61), (-1, -1));
    assert_eq!(div_rem_sixty(-59), (0, -59));
    assert_eq!(div_rem_sixty(0), (0, 0));
    assert_eq!(div_rem_sixty(i64::MIN), (i64::MIN / 60, i64::MIN % 60));
}

#[test]
fn decimal_numerals() {
    assert_eq!(numeral(0), "0");
    assert_eq!(numeral(7), "7");
    assert_eq!(numeral(10), "10");
    assert_eq!(numeral(1234567890), "1234567890");
    assert_eq!(numeral(-1), "-1");
    assert_eq!(numeral(-128), "-128");
    assert_eq!(numeral(i64::MAX), "9223372036854775807");
    assert_eq!(numeral(i64::MIN), "-9223372036854775808");
}

#[test]
fn decimal_is_appended() {
    let mut out = String::from("v=");
    push_decimal(&mut out, 42);
    assert_eq!(out, "v=42");
}
