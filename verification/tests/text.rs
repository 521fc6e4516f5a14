use command_gateway::text::{decimal_string, str_eq};

#[test]
fn decimal_of_zero_is_a_single_digit() {
    assert_eq!(decimal_string(0), "0");
}

#[test]
fn decimal_of_small_numbers() {
    assert_eq!(decimal_string(7), "7");
    assert_eq!(decimal_string(9), "9");
    assert_eq!(decimal_string(10), "10");
    assert_eq!(decimal_string(42), "42");
    assert_eq!(decimal_string(1234567890), "1234567890");
}

#[test]
fn decimal_of_negative_numbers_has_a_minus_sign() {
    assert_eq!(decimal_string(-1), "-1");
    assert_eq!(decimal_string(-42), "-42");
    assert_eq!(decimal_string(-100), "-100");
}

#[test]
fn decimal_of_the_extremes() {
    assert_eq!(decimal_string(i64::MAX), "9223372036854775807");
    assert_eq!(decimal_string(i64::MIN), "-9223372036854775808");
}

#[test]
fn decimal_agrees_with_the_standard_formatting() {
    let samples: [i64; 9] = [0, 1, -1, 99, 100, -999, 1000, 4611686018427387904, -4611686018427387905];
    for n in samples {
        assert_eq!(decimal_string(n), format!("{}", n));
    }
}

#[test]
fn str_eq_tells_equal_from_different() {
    assert!(str_eq("", ""));
    assert!(str_eq("Company", "Company"));
    assert!(!str_eq("Company", "company"));
    assert!(!str_eq("Company", "CompanyList"));
    assert!(!str_eq("CompanyList", "Company"));
    assert!(!str_eq("", "a"));
}

#[test]
fn str_eq_compares_characters_beyond_ascii() {
    assert!(str_eq("Фирма", "Фирма"));
    assert!(!str_eq("Фирма", "Фирмы"));
    assert!(!str_eq("é", "e"));
}
