use dtoa::grisu32;
use dtoa::grisu64;
use dtoa::{Binary32, Binary64, Floating};

fn double(value: f64) -> String {
    let mut buf = Vec::new();
    dtoa::write(&mut buf, Binary64::from_bits(value.to_bits()));
    String::from_utf8(buf).unwrap()
}

fn single(value: f32) -> String {
    let mut buf = Vec::new();
    dtoa::write(&mut buf, Binary32::from_bits(value.to_bits()));
    String::from_utf8(buf).unwrap()
}

/// A sequence of bit patterns that visits all exponents.
fn patterns(count: usize) -> Vec<u64> {
    let mut state: u64 = 0x9e37_79b9_7f4a_7c15;
    let mut out = Vec::with_capacity(count);
    for _ in 0..count {
        state ^= state << 13;
        state ^= state >> 7;
        state ^= state << 17;
        out.push(state);
    }
    out
}

#[test]
fn bits_go_in_and_out() {
    assert_eq!(Binary64::from_bits(0x4005_bf0a_8b14_5769).to_bits(), 0x4005_bf0a_8b14_5769);
    assert_eq!(Binary32::from_bits(0x402d_f854).to_bits(), 0x402d_f854);
    assert_eq!(Binary64::from_bits(7).bits, 7);
    assert_eq!(Binary32::from_bits(7).bits, 7);
}

#[test]
fn zeros_keep_their_sign() {
    assert_eq!(double(0.0), "0.0");
    assert_eq!(double(-0.0), "-0.0");
    assert_eq!(single(0.0), "0.0");
    assert_eq!(single(-0.0), "-0.0");
}

#[test]
fn text_begins_with_minus_only_for_a_set_sign_bit() {
    for bits in patterns(2000) {
        let text = double(f64::from_bits(bits));
        assert_eq!(text.starts_with('-'), bits >> 63 == 1, "{:#x}", bits);
        let bits = (bits >> 32) as u32;
        let text = single(f32::from_bits(bits));
        assert_eq!(text.starts_with('-'), bits >> 31 == 1, "{:#x}", bits);
    }
}

#[test]
fn negative_values_are_the_positive_ones_with_a_sign() {
    for bits in patterns(500) {
        let plus = double(f64::from_bits(bits & !(1 << 63)));
        let minus = double(f64::from_bits(bits | (1 << 63)));
        assert_eq!(minus, format!("-{}", plus));
    }
}

#[test]
fn doubles_of_moderate_size() {
    assert_eq!(double(1.0), "1.0");
    assert_eq!(double(42.0), "42.0");
    assert_eq!(double(100.0), "100.0");
    assert_eq!(double(0.3), "0.3");
    assert_eq!(double(4.35), "4.35");
    assert_eq!(double(123456.789), "123456.789");
    assert_eq!(double(0.1 + 0.2), "0.30000000000000004");
    assert_eq!(double(1.0 / 3.0), "0.3333333333333333");
    assert_eq!(double(0.0001234), "0.0001234");
    assert_eq!(double(0.000001), "0.000001");
    assert_eq!(double(0.00005), "0.00005");
    assert_eq!(double(1e15), "1000000000000000.0");
    assert_eq!(double(1e20), "100000000000000000000.0");
    assert_eq!(double(9007199254740992.0), "9007199254740992.0");
    assert_eq!(double(-2.5), "-2.5");
}

#[test]
fn doubles_with_an_exponent() {
    assert_eq!(double(1e21), "1e21");
    assert_eq!(double(1e22), "1e22");
    assert_eq!(double(1e100), "1e100");
    assert_eq!(double(1e-7), "1e-7");
    assert_eq!(double(1.5e-7), "1.5e-7");
    assert_eq!(double(-1.1e-64), "-1.1e-64");
    assert_eq!(double(f64::MIN_POSITIVE), "2.2250738585072014e-308");
    assert_eq!(double(f64::from_bits(1)), "5e-324");
    assert_eq!(double(f64::MIN), "-1.7976931348623157e308");
}

#[test]
fn singles() {
    assert_eq!(single(1.0), "1.0");
    assert_eq!(single(1.5), "1.5");
    assert_eq!(single(0.1), "0.1");
    assert_eq!(single(0.3), "0.3");
    assert_eq!(single(123456.7), "123456.7");
    assert_eq!(single(16777216.0), "16777216.0");
    assert_eq!(single(1e10), "10000000000.0");
    assert_eq!(single(1e20), "100000000000000000000.0");
    assert_eq!(single(1e-10), "1e-10");
    assert_eq!(single(f32::MAX), "3.4028235e38");
    assert_eq!(single(f32::MIN_POSITIVE), "1.1754944e-38");
    assert_eq!(single(f32::from_bits(1)), "1e-45");
    assert_eq!(single(-3.1415927), "-3.1415927");
}

#[test]
fn a_single_is_not_written_as_the_double_of_the_same_value() {
    assert_eq!(single(0.1), "0.1");
    assert_eq!(double(0.1f32 as f64), "0.10000000149011612");
}

#[test]
fn doubles_read_back_as_themselves() {
    for bits in patterns(20000) {
        let value = f64::from_bits(bits);
        if !value.is_finite() {
            continue;
        }
        let text = double(value);
        let back: f64 = text.parse().unwrap();
        assert_eq!(back.to_bits(), bits, "{}", text);
    }
}

#[test]
fn singles_read_back_as_themselves() {
    for bits in patterns(20000) {
        let bits = (bits >> 17) as u32;
        let value = f32::from_bits(bits);
        if !value.is_finite() {
            continue;
        }
        let text = single(value);
        let back: f32 = text.parse().unwrap();
        assert_eq!(back.to_bits(), bits, "{}", text);
    }
}

#[test]
fn subnormal_doubles_read_back_as_themselves() {
    for bits in patterns(2000) {
        let bits = bits >> 12;
        let text = double(f64::from_bits(bits));
        let back: f64 = text.parse().unwrap();
        assert_eq!(back.to_bits(), bits, "{}", text);
    }
    for bits in 1..200u64 {
        let text = double(f64::from_bits(bits));
        let back: f64 = text.parse().unwrap();
        assert_eq!(back.to_bits(), bits, "{}", text);
    }
}

#[test]
fn powers_of_two_read_back_as_themselves() {
    for exponent in 1..2047u64 {
        let bits = exponent << 52;
        let text = double(f64::from_bits(bits));
        let back: f64 = text.parse().unwrap();
        assert_eq!(back.to_bits(), bits, "{}", text);
    }
    for exponent in 1..255u32 {
        let bits = exponent << 23;
        let text = single(f32::from_bits(bits));
        let back: f32 = text.parse().unwrap();
        assert_eq!(back.to_bits(), bits, "{}", text);
    }
}

#[test]
fn short_decimals_come_back_as_written() {
    let cases = [
        "0.5", "0.25", "1.2", "9.9", "12.75", "0.001", "0.007", "123.456", "1e25", "2.5e-10",
        "6.02e23", "1.6e-19", "299792458.0", "0.000123", "7e-7", "31415.9265",
    ];
    for text in cases {
        let value: f64 = text.parse().unwrap();
        assert_eq!(double(value), text);
    }
}

#[test]
fn only_digits_point_exponent_and_minus_are_written() {
    for bits in patterns(2000) {
        for text in [double(f64::from_bits(bits)), single(f32::from_bits(bits as u32))] {
            assert!(text.bytes().all(|b| b.is_ascii_digit() || b".e-".contains(&b)));
            assert!(text.bytes().filter(|&b| b == b'e').count() <= 1);
            assert_eq!(text.bytes().filter(|&b| b == b'.').count() <= 1, true);
        }
    }
}

#[test]
fn form_follows_the_size_of_the_value() {
    for bits in patterns(5000) {
        let value = f64::from_bits(bits & !(1 << 63));
        if !value.is_finite() || value == 0.0 {
            continue;
        }
        let text = double(value);
        let (digits, k) = grisu64::grisu2(value.to_bits());
        let kk = digits.len() as isize + k;
        assert_eq!(text.contains('e'), !(-6 < kk && kk <= 21), "{}", text);
        if 0 <= k && kk <= 21 {
            assert!(text.ends_with(".0"));
        }
    }
    assert!(!double(123456789012345678901.0).contains('e'));
    assert!(double(1234567890123456789012.0).contains('e'));
    assert!(!double(0.00000123).contains('e'));
    assert!(double(0.000000123).contains('e'));
}

#[test]
fn whole_doubles_end_in_point_zero() {
    for n in 0..2000u32 {
        let value = (n as f64) * 977.0;
        let text = double(value);
        assert!(text.ends_with(".0"), "{}", text);
        assert_eq!(text[..text.len() - 2].parse::<u64>().unwrap(), (n as u64) * 977);
    }
}

#[test]
fn digits_of_doubles_are_at_most_seventeen() {
    for bits in patterns(20000) {
        let bits = bits & !(1 << 63);
        if bits == 0 {
            continue;
        }
        let (digits, k) = grisu64::grisu2(bits);
        assert!(1 <= digits.len() && digits.len() <= 17);
        assert!(digits[0] != b'0');
        assert!(digits.iter().all(|d| d.is_ascii_digit()));
        let kk = digits.len() as isize + k;
        assert!(-331 <= kk && kk <= 310);
    }
}

#[test]
fn digits_of_singles_are_at_most_nine() {
    for bits in patterns(20000) {
        let bits = (bits >> 33) as u32;
        if bits == 0 {
            continue;
        }
        let (digits, k) = grisu32::grisu2(bits);
        assert!(1 <= digits.len() && digits.len() <= 9);
        assert!(digits[0] != b'0');
        let kk = digits.len() as isize + k;
        assert!(-51 <= kk && kk <= 46);
    }
}

#[test]
fn digits_of_known_values() {
    let (digits, k) = grisu64::grisu2(2.71828f64.to_bits());
    assert_eq!((digits, k), (b"271828".to_vec(), -5));
    let (digits, k) = grisu64::grisu2(f64::MAX.to_bits());
    assert_eq!((digits, k), (b"17976931348623157".to_vec(), 292));
    let (digits, k) = grisu64::grisu2(1);
    assert_eq!((digits, k), (b"5".to_vec(), -324));
    let (digits, k) = grisu64::grisu2(1e23f64.to_bits());
    assert_eq!((digits, k), (b"9999999999999999".to_vec(), 7));
    let (digits, k) = grisu32::grisu2(f32::MAX.to_bits());
    assert_eq!((digits, k), (b"34028235".to_vec(), 31));
    let (digits, k) = grisu32::grisu2(1);
    assert_eq!((digits, k), (b"1".to_vec(), -45));
}

#[test]
fn text_of_a_double_is_at_most_twenty_five_bytes() {
    let mut longest = 0;
    for bits in patterns(20000) {
        let text = double(f64::from_bits(bits));
        longest = longest.max(text.len());
        assert!(text.len() <= 25, "{}", text);
        if bits >> 63 == 0 {
            assert!(text.len() <= 24, "{}", text);
        }
    }
    assert!(longest >= 23);
    assert_eq!(double(-1.2345678901234567e-6), "-0.0000012345678901234567");
    assert_eq!(double(-1.2345678901234567e-6).len(), 25);
    assert_eq!(double(1.2345678901234567e-6).len(), 24);
    assert_eq!(double(-2.2250738585072014e-308).len(), 24);
}

#[test]
fn text_of_a_single_with_an_exponent_is_at_most_fifteen_bytes() {
    for bits in patterns(20000) {
        let text = single(f32::from_bits((bits >> 5) as u32));
        assert!(text.len() <= 24, "{}", text);
        if text.contains('e') {
            assert!(text.len() <= 15, "{}", text);
        }
    }
    assert_eq!(single(-1.1754944e-38), "-1.1754944e-38");
    assert_eq!(single(-1.1754944e-38).len(), 14);
    assert_eq!(single(-2.8006815e20), "-280068150000000000000.0");
    assert_eq!(single(-2.8006815e20).len(), 24);
    assert_eq!(single(-1.2345678e-6), "-0.0000012345678");
}

#[test]
fn patterns_that_stand_for_no_number_are_written_like_the_next_binade() {
    assert_eq!(double(f64::INFINITY), "1.797693134862316e308");
    assert_eq!(double(f64::NEG_INFINITY), "-1.797693134862316e308");
    assert_eq!(single(f32::INFINITY), "3.4028237e38");
}

#[test]
fn write_appends_to_what_is_there() {
    let mut buf = b"[".to_vec();
    dtoa::write(&mut buf, Binary64::from_bits(1.5f64.to_bits()));
    buf.push(b',');
    dtoa::write(&mut buf, Binary32::from_bits((-0.25f32).to_bits()));
    buf.push(b']');
    assert_eq!(String::from_utf8(buf).unwrap(), "[1.5,-0.25]");
}

#[test]
fn trait_method_and_free_function_agree() {
    for bits in patterns(200) {
        let mut a = Vec::new();
        let mut b = Vec::new();
        let mut c = Vec::new();
        Binary64::from_bits(bits).write(&mut a);
        dtoa::write(&mut b, Binary64::from_bits(bits));
        grisu64::dtoa(&mut c, bits);
        assert_eq!(a, b);
        assert_eq!(a, c);
        let bits = bits as u32;
        let mut a = Vec::new();
        let mut b = Vec::new();
        let mut c = Vec::new();
        Binary32::from_bits(bits).write(&mut a);
        dtoa::write(&mut b, Binary32::from_bits(bits));
        grisu32::dtoa(&mut c, bits);
        assert_eq!(a, b);
        assert_eq!(a, c);
    }
}

#[test]
fn the_same_value_gives_the_same_text_every_time() {
    for bits in patterns(200) {
        assert_eq!(double(f64::from_bits(bits)), double(f64::from_bits(bits)));
    }
}

#[test]
fn singles_of_every_exponent_read_back_as_themselves() {
    // Every 4099th bit pattern of the positive finite values.
    let mut bits: u32 = 1;
    while bits < 0x7f80_0000 {
        let text = single(f32::from_bits(bits));
        let back: f32 = text.parse().unwrap();
        assert_eq!(back.to_bits(), bits, "{}", text);
        bits += 4099;
    }
}

#[test]
fn doubles_next_to_powers_of_two_read_back_as_themselves() {
    for exponent in 1..2046u64 {
        let power = (exponent + 1) << 52;
        for bits in [power - 2, power - 1, power, power + 1, power + 2] {
            let text = double(f64::from_bits(bits));
            let back: f64 = text.parse().unwrap();
            assert_eq!(back.to_bits(), bits, "{}", text);
        }
    }
}

#[test]
fn texts_of_doubles_are_told_apart_by_their_values() {
    let mut last = String::new();
    for step in 0..5000u64 {
        let text = double(f64::from_bits(0x3ff0_0000_0000_0000 + step));
        assert!(text != last);
        last = text;
    }
}
