use dtoa::decimal::{count_decimal_digit32, pow10_u64};
use dtoa::digit_gen::{digit_gen, grisu_round};

#[test]
fn pow10_is_exact() {
    assert_eq!(pow10_u64(0), 1);
    assert_eq!(pow10_u64(1), 10);
    assert_eq!(pow10_u64(9), 1_000_000_000);
    assert_eq!(pow10_u64(19), 10_000_000_000_000_000_000);
    let mut p: u64 = 1;
    for n in 0..20usize {
        assert_eq!(pow10_u64(n), p);
        p = p.wrapping_mul(10);
    }
}

#[test]
fn count_decimal_digit32_at_the_powers_of_ten() {
    assert_eq!(count_decimal_digit32(0), 1);
    assert_eq!(count_decimal_digit32(9), 1);
    assert_eq!(count_decimal_digit32(10), 2);
    assert_eq!(count_decimal_digit32(99), 2);
    assert_eq!(count_decimal_digit32(100), 3);
    assert_eq!(count_decimal_digit32(99_999_999), 8);
    assert_eq!(count_decimal_digit32(100_000_000), 9);
    assert_eq!(count_decimal_digit32(999_999_999), 9);
    assert_eq!(count_decimal_digit32(1_000_000_000), 10);
    assert_eq!(count_decimal_digit32(u32::MAX), 10);
}

#[test]
fn grisu_round_leaves_digits_that_are_below_the_value() {
    let mut buffer = b"123".to_vec();
    grisu_round(&mut buffer, 16, 8, 16, 8);
    assert_eq!(buffer, b"123".to_vec());
}

#[test]
fn grisu_round_lowers_the_last_digit_towards_the_value() {
    // The digits stand for 120 of 129, the value is 114: 110 is closer.
    let mut buffer = b"12".to_vec();
    grisu_round(&mut buffer, 320, 144, 160, 240);
    assert_eq!(buffer, b"11".to_vec());
    // With the value at 95 the digits go down by two.
    let mut buffer = b"12".to_vec();
    grisu_round(&mut buffer, 600, 144, 160, 544);
    assert_eq!(buffer, b"10".to_vec());
}

#[test]
fn grisu_round_stays_within_the_tolerance() {
    // One more step would leave the tolerance.
    let mut buffer = b"12".to_vec();
    grisu_round(&mut buffer, 303, 144, 160, 240);
    assert_eq!(buffer, b"12".to_vec());
    let mut buffer = b"12".to_vec();
    grisu_round(&mut buffer, 304, 144, 160, 240);
    assert_eq!(buffer, b"11".to_vec());
}

#[test]
fn grisu_round_does_not_lower_a_zero() {
    let mut buffer = b"10".to_vec();
    grisu_round(&mut buffer, 1000, 0, 10, 1000);
    assert_eq!(buffer, b"10".to_vec());
    let mut buffer = b"13".to_vec();
    grisu_round(&mut buffer, 1000, 0, 10, 1000);
    assert_eq!(buffer, b"10".to_vec());
}

#[test]
fn digit_gen_stops_in_front_of_the_point() {
    // 123.5 with a tolerance of 1 and the value 0.5 below.
    let (digits, k) = digit_gen(123 * 16 + 8, 16, 8, 4, 0);
    assert_eq!(digits, b"123".to_vec());
    assert_eq!(k, 0);
    // 129 with a tolerance of 20: two digits do.
    let (digits, k) = digit_gen(129 * 16, 320, 80, 4, 7);
    assert_eq!(digits, b"12".to_vec());
    assert_eq!(k, 8);
    // 12.5 with a tolerance of 12: one digit does.
    let (digits, k) = digit_gen(25, 24, 0, 1, -2);
    assert_eq!(digits, b"1".to_vec());
    assert_eq!(k, -1);
}

#[test]
fn digit_gen_rounds_towards_the_value() {
    // 129 with a tolerance of 20 and the value at 114.
    let (digits, k) = digit_gen(129 * 16, 320, 240, 4, 0);
    assert_eq!(digits, b"11".to_vec());
    assert_eq!(k, 1);
}

#[test]
fn digit_gen_goes_on_behind_the_point() {
    // 1.25 with a tolerance of 1/16.
    let (digits, k) = digit_gen(20, 1, 0, 4, 0);
    assert_eq!(digits, b"12".to_vec());
    assert_eq!(k, -1);
    // 1 + 2/1024 = 1.001953125 with a tolerance of 1/1024.
    let (digits, k) = digit_gen(1026, 1, 0, 10, -3);
    assert_eq!(digits, b"1001".to_vec());
    assert_eq!(k, -6);
}

#[test]
fn digit_gen_takes_a_rest_equal_to_the_tolerance() {
    // 12.5 with a tolerance of 0.5: the rest after 12 is the tolerance.
    let (digits, k) = digit_gen(25, 1, 0, 1, 0);
    assert_eq!(digits, b"12".to_vec());
    assert_eq!(k, 0);
    // 1 + 517/1024 with a tolerance of 5/1024: behind 1.5 the rest is the
    // tolerance.
    let (digits, k) = digit_gen(1541, 5, 0, 10, 0);
    assert_eq!(digits, b"15".to_vec());
    assert_eq!(k, -1);
    // With a tolerance just below, generation goes on.
    let (digits, k) = digit_gen(1541, 4, 0, 10, 0);
    assert_eq!(digits, b"1504".to_vec());
    assert_eq!(k, -3);
}

#[test]
fn digit_gen_handles_ten_digits_in_front_of_the_point() {
    let (digits, k) = digit_gen((4_294_967_295u64 << 4) + 15, 1, 0, 4, 0);
    assert_eq!(digits, b"42949672959".to_vec());
    assert_eq!(k, -1);
    let (digits, k) = digit_gen(4_000_000_001u64 << 4, 1, 0, 4, 0);
    assert_eq!(digits, b"4000000001".to_vec());
    assert_eq!(k, 0);
    let (digits, k) = digit_gen(4_000_000_000u64 << 4, 1 << 4, 0, 4, 0);
    assert_eq!(digits, b"4".to_vec());
    assert_eq!(k, 9);
}
