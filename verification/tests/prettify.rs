use dtoa::prettify::{prettify, write_decimal, write_exponent, write_range, write_zeros};

fn text(digits: &str, k: isize) -> String {
    let mut out = Vec::new();
    prettify(&digits.as_bytes().to_vec(), k, &mut out);
    String::from_utf8(out).unwrap()
}

#[test]
fn point_inside_the_digits() {
    assert_eq!(text("1234", -2), "12.34");
    assert_eq!(text("1234", -3), "1.234");
    assert_eq!(text("1234", -1), "123.4");
    assert_eq!(text("12345678901234567", -16), "1.2345678901234567");
    assert_eq!(text("123456789012345678901", -1), "12345678901234567890.1");
}

#[test]
fn whole_numbers_end_in_point_zero() {
    assert_eq!(text("1", 0), "1.0");
    assert_eq!(text("42", 0), "42.0");
    assert_eq!(text("1234", 7), "12340000000.0");
    assert_eq!(text("1", 20), "100000000000000000000.0");
    assert_eq!(text("123456789012345678901", 0), "123456789012345678901.0");
}

#[test]
fn small_numbers_get_leading_zeros() {
    assert_eq!(text("1234", -4), "0.1234");
    assert_eq!(text("1234", -7), "0.0001234");
    assert_eq!(text("1", -6), "0.000001");
    assert_eq!(text("12", -7), "0.0000012");
}

#[test]
fn large_and_tiny_numbers_get_an_exponent() {
    assert_eq!(text("1", 21), "1e21");
    assert_eq!(text("1", 30), "1e30");
    assert_eq!(text("1234", 30), "1.234e33");
    assert_eq!(text("12", 20), "1.2e21");
    assert_eq!(text("1", -7), "1e-7");
    assert_eq!(text("12", -8), "1.2e-7");
    assert_eq!(text("5", -324), "5e-324");
    assert_eq!(text("17976931348623157", 292), "1.7976931348623157e308");
}

#[test]
fn form_changes_at_the_ends_of_the_positional_range() {
    // kk = 21 and kk = 22.
    assert_eq!(text("123", 18), "123000000000000000000.0");
    assert_eq!(text("123", 19), "1.23e21");
    assert_eq!(text("1234567890123456789012", -1), "123456789012345678901.2");
    assert_eq!(text("1234567890123456789012", 0), "1.234567890123456789012e21");
    // kk = -5 and kk = -6.
    assert_eq!(text("123", -8), "0.00000123");
    assert_eq!(text("123", -9), "1.23e-7");
    // kk = 0 and kk = 1.
    assert_eq!(text("123", -3), "0.123");
    assert_eq!(text("123", -2), "1.23");
}

#[test]
fn prettify_appends() {
    let mut out = b"x = ".to_vec();
    prettify(&b"15".to_vec(), -1, &mut out);
    assert_eq!(out, b"x = 1.5".to_vec());
}

#[test]
fn exponent_has_a_sign_only_if_negative() {
    let cases: [(isize, &str); 9] = [
        (0, "0"),
        (7, "7"),
        (-7, "-7"),
        (10, "10"),
        (99, "99"),
        (100, "100"),
        (308, "308"),
        (-324, "-324"),
        (-1000, "-1000"),
    ];
    for (k, expected) in cases {
        let mut out = Vec::new();
        write_exponent(k, &mut out);
        assert_eq!(String::from_utf8(out).unwrap(), expected);
    }
    let mut out = Vec::new();
    write_exponent(isize::MIN, &mut out);
    assert_eq!(String::from_utf8(out).unwrap(), isize::MIN.to_string());
    let mut out = Vec::new();
    write_exponent(isize::MAX, &mut out);
    assert_eq!(String::from_utf8(out).unwrap(), isize::MAX.to_string());
}

#[test]
fn decimal_of_any_number() {
    for n in [0u64, 1, 9, 10, 11, 99, 100, 12345, 1 << 40, u64::MAX] {
        let mut out = b"#".to_vec();
        write_decimal(n, &mut out);
        assert_eq!(String::from_utf8(out).unwrap(), format!("#{}", n));
    }
}

#[test]
fn zeros_and_ranges() {
    let mut out = b"a".to_vec();
    write_zeros(0, &mut out);
    assert_eq!(out, b"a".to_vec());
    write_zeros(3, &mut out);
    assert_eq!(out, b"a000".to_vec());
    let digits = b"0123456789".to_vec();
    write_range(&digits, 2, 5, &mut out);
    assert_eq!(out, b"a000234".to_vec());
    write_range(&digits, 7, 7, &mut out);
    assert_eq!(out, b"a000234".to_vec());
    write_range(&digits, 0, 10, &mut out);
    assert_eq!(out, b"a0002340123456789".to_vec());
}
