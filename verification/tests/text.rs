use rapidl::text::{i64_to_string, join2, join3, push_decimal, push_digits, str_eq};

#[test]
fn decimal_of_zero_and_small_numbers() {
    assert_eq!(i64_to_string(0), "0");
    assert_eq!(i64_to_string(7), "7");
    assert_eq!(i64_to_string(10), "10");
    assert_eq!(i64_to_string(-1), "-1");
    assert_eq!(i64_to_string(1234567890), "1234567890");
}

#[test]
fn decimal_of_the_extremes() {
    assert_eq!(i64_to_string(i64::MAX), "9223372036854775807");
    assert_eq!(i64_to_string(i64::MIN), "-9223372036854775808");
}

#[test]
fn decimal_agrees_with_std_on_many_numbers() {
    let mut v: i64 = 1;
    for _ in 0..62 {
        assert_eq!(i64_to_string(v), v.to_string());
        assert_eq!(i64_to_string(-v), (-v).to_string());
        assert_eq!(i64_to_string(v - 1), (v - 1).to_string());
        v *= 2;
    }
}

#[test]
fn digits_are_appended() {
    let mut out = String::from("n=");
    push_digits(&mut out, 4096);
    assert_eq!(out, "n=4096");
    push_decimal(&mut out, -12);
    assert_eq!(out, "n=4096-12");
    push_digits(&mut out, u64::MAX);
    assert_eq!(out, "n=4096-1218446744073709551615");
}

#[test]
fn joins_and_equality() {
    assert_eq!(join2("ab", "cd"), "abcd");
    assert_eq!(join3("a", "", "c"), "ac");
    assert!(str_eq("same", "same"));
    assert!(!str_eq("same", "Same"));
    assert!(!str_eq("same", "sam"));
}
