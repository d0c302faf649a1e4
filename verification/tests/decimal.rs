use jsbsimrs::decimal::{append_decimal, append_digits};

fn decimal(n: i64) -> String {
    let mut out = String::new();
    append_decimal(&mut out, n);
    out
}

#[test]
fn digits_are_appended_behind_what_is_there() {
    let mut out = String::from("iterate ");
    append_digits(&mut out, 120);
    assert_eq!(out, "iterate 120");
    append_digits(&mut out, 0);
    assert_eq!(out, "iterate 1200");
}

#[test]
fn decimal_of_small_numbers() {
    assert_eq!(decimal(0), "0");
    assert_eq!(decimal(7), "7");
    assert_eq!(decimal(10), "10");
    assert_eq!(decimal(400), "400");
    assert_eq!(decimal(5556), "5556");
    assert_eq!(decimal(-1), "-1");
    assert_eq!(decimal(-120), "-120");
}

#[test]
fn decimal_of_the_limits() {
    assert_eq!(decimal(i32::MAX as i64), "2147483647");
    assert_eq!(decimal(i32::MIN as i64), "-2147483648");
    assert_eq!(decimal(i64::MAX), "9223372036854775807");
    assert_eq!(decimal(i64::MIN), "-9223372036854775808");
    let mut out = String::new();
    append_digits(&mut out, u64::MAX);
    assert_eq!(out, "18446744073709551615");
}

#[test]
fn decimal_agrees_with_std() {
    let mut n: i64 = -100_003;
    while n < 100_000 {
        assert_eq!(decimal(n), n.to_string());
        n += 7;
    }
}
