use watchmedo::decimal::decimal_string;

#[test]
fn decimal_of_zero_is_one_digit() {
    assert_eq!(decimal_string(0), "0");
}

#[test]
fn decimal_of_small_numbers() {
    assert_eq!(decimal_string(7), "7");
    assert_eq!(decimal_string(10), "10");
    assert_eq!(decimal_string(21536), "21536");
}

#[test]
fn decimal_of_largest_number() {
    assert_eq!(decimal_string(u64::MAX), "18446744073709551615");
}
