use dtoa::cached_power::power_index;
use dtoa::diyf32;
use dtoa::diyf64;

#[test]
fn new_keeps_both_fields() {
    let a = diyf32::DiyFp::new(7, -3);
    assert_eq!((a.f, a.e), (7, -3));
    let b = diyf64::DiyFp::new(u64::MAX, 12);
    assert_eq!((b.f, b.e), (u64::MAX, 12));
}

#[test]
fn from_bits_of_normal_values_adds_the_hidden_bit() {
    let one = diyf64::DiyFp::from_bits(1.0f64.to_bits());
    assert_eq!((one.f, one.e), (1u64 << 52, -52));
    let max = diyf64::DiyFp::from_bits(f64::MAX.to_bits());
    assert_eq!((max.f, max.e), ((1u64 << 53) - 1, 971));
    let one = diyf32::DiyFp::from_bits(1.0f32.to_bits());
    assert_eq!((one.f, one.e), (1u32 << 23, -23));
    let max = diyf32::DiyFp::from_bits(f32::MAX.to_bits());
    assert_eq!((max.f, max.e), ((1u32 << 24) - 1, 104));
}

#[test]
fn from_bits_of_subnormal_values_has_the_least_exponent() {
    let least = diyf64::DiyFp::from_bits(1);
    assert_eq!((least.f, least.e), (1, -1074));
    let most = diyf64::DiyFp::from_bits((1u64 << 52) - 1);
    assert_eq!((most.f, most.e), ((1u64 << 52) - 1, -1074));
    let least = diyf32::DiyFp::from_bits(1);
    assert_eq!((least.f, least.e), (1, -149));
    let zero = diyf32::DiyFp::from_bits(0);
    assert_eq!((zero.f, zero.e), (0, -149));
}

#[test]
fn from_bits_does_not_look_at_the_sign() {
    let plus = diyf64::DiyFp::from_bits(2.5f64.to_bits());
    let minus = diyf64::DiyFp::from_bits((-2.5f64).to_bits());
    assert_eq!((plus.f, plus.e), (minus.f, minus.e));
    let plus = diyf32::DiyFp::from_bits(2.5f32.to_bits());
    let minus = diyf32::DiyFp::from_bits((-2.5f32).to_bits());
    assert_eq!((plus.f, plus.e), (minus.f, minus.e));
}

#[test]
fn normalize_sets_the_top_bit() {
    let a = diyf64::DiyFp::new(1, 0).normalize();
    assert_eq!((a.f, a.e), (1u64 << 63, -63));
    let b = diyf64::DiyFp::new(0x8000_0000_0000_0001, 5).normalize();
    assert_eq!((b.f, b.e), (0x8000_0000_0000_0001, 5));
    let c = diyf64::DiyFp::new(3, 10).normalize();
    assert_eq!((c.f, c.e), (3u64 << 62, -52));
    let a = diyf32::DiyFp::new(1, 0).normalize();
    assert_eq!((a.f, a.e), (1u32 << 31, -31));
    let c = diyf32::DiyFp::new(5, 2).normalize();
    assert_eq!((c.f, c.e), (5u32 << 29, -27));
}

#[test]
fn normalize_boundary_agrees_with_normalize() {
    let x = diyf64::DiyFp::new((1u64 << 53) + 1, -53);
    let a = x.normalize_boundary();
    let b = x.normalize();
    assert_eq!((a.f, a.e), (b.f, b.e));
    assert_eq!((a.f, a.e), (((1u64 << 53) + 1) << 10, -63));
    let y = diyf64::DiyFp::new(3, -1075);
    let a = y.normalize_boundary();
    assert_eq!((a.f, a.e), (3u64 << 62, -1137));
    let z = diyf32::DiyFp::new(3, -150);
    let a = z.normalize_boundary();
    assert_eq!((a.f, a.e), (3u32 << 30, -180));
}

#[test]
fn boundaries_of_a_power_of_two_are_uneven() {
    let one = diyf64::DiyFp::from_bits(1.0f64.to_bits());
    let (mi, pl) = one.normalized_boundaries();
    assert_eq!((pl.f, pl.e), ((1u64 << 63) + (1 << 10), -63));
    assert_eq!((mi.f, mi.e), ((1u64 << 63) - (1 << 9), -63));
    let one = diyf32::DiyFp::from_bits(1.0f32.to_bits());
    let (mi, pl) = one.normalized_boundaries();
    assert_eq!((pl.f, pl.e), ((1u32 << 31) + (1 << 7), -31));
    assert_eq!((mi.f, mi.e), ((1u32 << 31) - (1 << 6), -31));
}

#[test]
fn boundaries_elsewhere_are_even() {
    let v = diyf64::DiyFp::from_bits(1.5f64.to_bits());
    let (mi, pl) = v.normalized_boundaries();
    assert_eq!((pl.f, pl.e), (((3u64 << 52) + 1) << 10, -63));
    assert_eq!((mi.f, mi.e), (((3u64 << 52) - 1) << 10, -63));
    let least = diyf64::DiyFp::from_bits(1);
    let (mi, pl) = least.normalized_boundaries();
    assert_eq!((pl.f, pl.e), (3u64 << 62, -1137));
    assert_eq!((mi.f, mi.e), (1u64 << 62, -1137));
    let v = diyf32::DiyFp::from_bits(1.5f32.to_bits());
    let (mi, pl) = v.normalized_boundaries();
    assert_eq!((pl.f, pl.e), (((3u32 << 23) + 1) << 7, -31));
    assert_eq!((mi.f, mi.e), (((3u32 << 23) - 1) << 7, -31));
}

#[test]
fn sub_takes_significands_apart() {
    let a = diyf64::DiyFp::new(100, -7).sub(diyf64::DiyFp::new(58, -7));
    assert_eq!((a.f, a.e), (42, -7));
    let b = diyf32::DiyFp::new(9, 3).sub(diyf32::DiyFp::new(9, 3));
    assert_eq!((b.f, b.e), (0, 3));
}

#[test]
fn mul_rounds_to_nearest_and_ties_up() {
    let half = diyf64::DiyFp::new(1u64 << 63, 0);
    let a = half.mul(half);
    assert_eq!((a.f, a.e), (1u64 << 62, 64));
    let b = diyf64::DiyFp::new(3, -1).mul(half);
    assert_eq!((b.f, b.e), (2, 63));
    let c = diyf64::DiyFp::new(0xfa8fd5a0081c0288, 1);
    let c = c.mul(diyf64::DiyFp::new(0xbaaee17fa23ebf76, 2));
    assert_eq!((c.f, c.e), (0xb6b7abaecf92edcf, 67));
    let d = diyf64::DiyFp::new(u64::MAX, 0).mul(diyf64::DiyFp::new(u64::MAX, 0));
    assert_eq!((d.f, d.e), (u64::MAX - 1, 64));
    let half = diyf32::DiyFp::new(1u32 << 31, 0);
    let e = diyf32::DiyFp::new(3, -1).mul(half);
    assert_eq!((e.f, e.e), (2, 31));
    let g = diyf32::DiyFp::new(u32::MAX, 0).mul(diyf32::DiyFp::new(u32::MAX, 0));
    assert_eq!((g.f, g.e), (u32::MAX - 1, 32));
}

#[test]
fn cached_powers_begin_and_end_as_listed() {
    let first = diyf64::get_cached_power_by_index(0);
    assert_eq!((first.f, first.e), (0xfa8fd5a0081c0288, -1220));
    let last = diyf64::get_cached_power_by_index(86);
    assert_eq!((last.f, last.e), (0xaf87023b9bf0ee6b, 1066));
    let ten_thousand = diyf64::get_cached_power_by_index(44);
    assert_eq!((ten_thousand.f, ten_thousand.e), (0x9c40000000000000, -50));
    let first = diyf32::get_cached_power_by_index(0);
    assert_eq!((first.f, first.e), (0xfa8fd5a0, -1188));
    let last = diyf32::get_cached_power_by_index(86);
    assert_eq!((last.f, last.e), (0xaf87023c, 1098));
    let ten_thousand = diyf32::get_cached_power_by_index(44);
    assert_eq!((ten_thousand.f, ten_thousand.e), (0x9c400000, -18));
}

#[test]
fn every_cached_power_has_its_top_bit_set() {
    for index in 0..87usize {
        assert!(diyf64::get_cached_power_by_index(index).f >= 1u64 << 63);
        assert!(diyf32::get_cached_power_by_index(index).f >= 1u32 << 31);
    }
}

#[test]
fn cached_power_for_an_exponent_near_the_window() {
    // 2^-63 times ten thousand lies in the window.
    let (c, k) = diyf64::get_cached_power(-63);
    assert_eq!((c.f, c.e, k), (0x9c40000000000000, -50, -4));
    let (c, k) = diyf32::get_cached_power(-31);
    assert_eq!((c.f, c.e, k), (0x9c400000, -18, -4));
}

#[test]
fn cached_power_brings_every_exponent_into_the_window() {
    for e in -1190..=1121isize {
        let (c, k) = diyf64::get_cached_power(e);
        let scaled = e + c.e + 64;
        assert!(-60 <= scaled && scaled <= -34, "e = {}", e);
        assert!(-340 <= k && k <= 348);
        assert_eq!(k % 4, 0);
    }
    for e in -1158..=1153isize {
        let (c, _) = diyf32::get_cached_power(e);
        let scaled = e + c.e + 32;
        assert!(-28 <= scaled && scaled <= -2, "e = {}", e);
    }
}

#[test]
fn cached_power_at_the_ends_of_its_domain() {
    let (c, k) = diyf64::get_cached_power(1121);
    assert_eq!((c.f, c.e, k), (0xfa8fd5a0081c0288, -1220, 348));
    let (c, k) = diyf64::get_cached_power(-1190);
    assert_eq!((c.f, c.e, k), (0xaf87023b9bf0ee6b, 1066, -340));
}

#[test]
fn power_index_rounds_the_logarithm_up() {
    // ceil(0) = 0, ceil(log10(2)) = 1, ceil(3 * log10(2)) = 1, ceil(4 * log10(2)) = 2.
    assert_eq!(power_index(0), 347 / 8 + 1);
    assert_eq!(power_index(1), 348 / 8 + 1);
    assert_eq!(power_index(3), 348 / 8 + 1);
    assert_eq!(power_index(4), 349 / 8 + 1);
    // 485 * log10(2) = 145.9995..., 1166 * log10(2) = 351.0009...
    assert_eq!(power_index(485), (146 + 347) / 8 + 1);
    assert_eq!(power_index(-485), (347 - 145) / 8 + 1);
    assert_eq!(power_index(-1166), 0);
    assert_eq!(power_index(-1182), 0);
    assert_eq!(power_index(1129), 86);
}

#[test]
fn cached_powers_near_one_are_rounded_powers_of_ten() {
    // 10^4, 10^12, 10^20, 10^28 and 10^36 against f * 2^e.
    let mut power: u128 = 10_000;
    for index in 44..49usize {
        let c = diyf64::get_cached_power_by_index(index);
        let twice = if c.e >= 1 {
            (2 * c.f as u128) << (c.e - 1)
        } else {
            (2 * c.f as u128) >> (1 - c.e)
        };
        let half = if c.e >= 1 { 1u128 << (c.e - 1) } else { 0 };
        assert!(twice - half <= power && power <= twice + half, "index {}", index);
        let c = diyf32::get_cached_power_by_index(index);
        let twice = if c.e >= 1 {
            (2 * c.f as u128) << (c.e - 1)
        } else {
            (2 * c.f as u128) >> (1 - c.e)
        };
        let half = if c.e >= 1 { 1u128 << (c.e - 1) } else { 0 };
        assert!(twice - half <= power && power <= twice + half, "index {}", index);
        power *= 100_000_000;
    }
    // 10^-4 and 10^-12 against f * 2^e: f * 10^4 against 2^-e.
    let c = diyf64::get_cached_power_by_index(43);
    let scaled = (2 * c.f as u128) * 10_000;
    assert!(scaled - 10_000 <= 1u128 << 78 && 1u128 << 78 <= scaled + 10_000);
    assert_eq!(c.e, -77);
    let c = diyf64::get_cached_power_by_index(42);
    let scaled = (2 * c.f as u128) * 1_000_000_000_000;
    let one = 1u128 << (1 - c.e);
    assert!(scaled - 1_000_000_000_000 <= one && one <= scaled + 1_000_000_000_000);
}
