//! The shortest decimal digits of a double-precision value, and its text.
//!
//! The value and the halfway points to its neighbours are scaled by a cached
//! power of ten into a window of binary exponents. Digits are generated for
//! the scaled upper halfway point until they are within the scaled interval,
//! which is first narrowed by one unit at either end to make up for the
//! rounding of the scaling.

use crate::accuracy64::lemma_cached_power_accuracy;
use crate::binary::{
    lemma_pow2_increases, lemma_rounded_product_fits, lemma_rounded_product_gap,
    lemma_scaled_ratio, rounded_product,
};
use crate::cached_power::cached_index;
use crate::decimal::{
    all_digits, decimal_digits, lemma_decimal_digits_bounds, lemma_decimal_digits_shape,
    lemma_pow10_increases, lemma_pow10_step, lemma_pow10_values, pow10,
};
use crate::digit_gen::{
    digit_gen, first_position, generated_value, last_position, lemma_digit_count,
    lemma_generated_len, lemma_generated_within, lemma_no_shorter, scale, unit,
};
use crate::diyf64::{
    get_cached_power, lemma_get_cached_power, spec_get_cached_power, DiyFp, ALPHA,
    DP_HIDDEN_BIT,
};
use crate::exact::{
    lemma_rounded_product_near, lemma_val_move_order, lemma_val_of_digits, lemma_val_raise, val,
    MIN_DECIMAL,
};
use crate::prettify::{
    is_positional, is_text_byte, lemma_exponent_text_len, lemma_prettify_bytes,
    lemma_prettify_first, lemma_prettify_form, lemma_prettify_len, lemma_prettify_whole,
    prettify, prettify_len, prettify_text, zeros, EXP, MINUS, POINT, ZERO,
};
use crate::reading::{digits_to_nat, lemma_digits_to_nat, lemma_read_prettify, read_text};
use vstd::arithmetic::div_mod::*;
use vstd::arithmetic::power2::*;
use vstd::prelude::*;

verus! {

/// The sign bit of a double-precision bit pattern.
pub const SIGN_BIT: u64 = 0x8000000000000000;

/// The most digits that a value has.
pub const MAX_DIGITS: usize = 17;

/// The least decimal exponent that a cached power takes out of a value.
pub const MIN_POWER: isize = -332;

/// The greatest decimal exponent that a cached power takes out of a value.
pub const MAX_POWER: isize = 300;

/// Whether the sign bit of `bits` is set.
pub open spec fn is_negative(bits: u64) -> bool {
    bits >= SIGN_BIT
}

/// The bit pattern `bits` without its sign bit.
pub open spec fn magnitude(bits: u64) -> u64 {
    (bits % SIGN_BIT) as u64
}

/// The lower boundary of the value with the bit pattern `bits`, the value
/// itself and its upper boundary, all three scaled by the cached power for
/// the exponent that they share, and the decimal exponent that the cached
/// power takes out.
pub open spec fn spec_scaled(bits: u64) -> (DiyFp, DiyFp, DiyFp, int) {
    let v = DiyFp::spec_from_bits(bits);
    let (w_m, w_p) = v.spec_normalized_boundaries();
    let (c_mk, k) = spec_get_cached_power(w_p.e as int);
    (w_m.spec_mul(c_mk), v.spec_normalize().spec_mul(c_mk), w_p.spec_mul(c_mk), k)
}

/// The scaled upper boundary, moved inwards by one unit to make up for the
/// rounding of the scaling.
pub open spec fn spec_upper(bits: u64) -> nat {
    (spec_scaled(bits).2.f - 1) as nat
}

/// The distance from the scaled lower boundary, moved inwards by one unit
/// too, to the upper one: the tolerance of digit generation.
pub open spec fn spec_delta(bits: u64) -> nat {
    (spec_scaled(bits).2.f - spec_scaled(bits).0.f - 2) as nat
}

/// The distance from the scaled value to the upper boundary.
pub open spec fn spec_distance(bits: u64) -> nat {
    (spec_scaled(bits).2.f - 1 - spec_scaled(bits).1.f) as nat
}

/// The number of fraction bits of the scaled numbers.
pub open spec fn spec_shift(bits: u64) -> nat {
    (-spec_scaled(bits).2.e) as nat
}

/// The position of the last digit of the value with the bit pattern `bits`
/// in the scaled value.
pub open spec fn spec_last_position(bits: u64) -> int {
    last_position(spec_upper(bits), spec_delta(bits), spec_shift(bits))
}

/// The number whose decimal digits are the digits of the value with the
/// bit pattern `bits`, which is not a zero.
pub open spec fn spec_digits_value(bits: u64) -> nat {
    generated_value(spec_upper(bits), spec_delta(bits), spec_distance(bits), spec_shift(bits))
}

/// The decimal exponent that goes with `spec_digits_value`: the digits stand
/// for `spec_digits_value(bits) * 10^spec_exponent(bits)`.
pub open spec fn spec_exponent(bits: u64) -> int {
    spec_scaled(bits).3 + spec_last_position(bits)
}

/// The position of the point in the digits of the value with the bit
/// pattern `bits`: the number of digits plus the decimal exponent. The first
/// digit has the weight `10^(spec_point(bits) - 1)`.
pub open spec fn spec_point(bits: u64) -> int {
    decimal_digits(spec_digits_value(bits)).len() + spec_exponent(bits)
}

/// The text of the value with the bit pattern `bits`: the sign if the sign
/// bit is set, then `0.0` for a zero and the digits in their textual form for
/// any other value.
pub open spec fn spec_dtoa(bits: u64) -> Seq<u8> {
    let sign = if is_negative(bits) {
        seq![MINUS]
    } else {
        Seq::<u8>::empty()
    };
    if magnitude(bits) == 0 {
        sign + seq![ZERO, POINT, ZERO]
    } else {
        sign + prettify_text(decimal_digits(spec_digits_value(bits)), spec_exponent(bits))
    }
}

/// The length of the text of the value with the bit pattern `bits`.
pub open spec fn spec_len(bits: u64) -> int {
    let sign = if is_negative(bits) {
        1int
    } else {
        0int
    };
    if magnitude(bits) == 0 {
        sign + 3
    } else {
        sign + prettify_len(
            decimal_digits(spec_digits_value(bits)).len() as int,
            spec_exponent(bits),
        )
    }
}

/// The digits of the value with the bit pattern `bits`, which is not a
/// zero, and its decimal exponent. The sign bit is not looked at.
pub fn grisu2(bits: u64) -> (r: (Vec<u8>, isize))
    requires
        magnitude(bits) != 0,
    ensures
        r.0@ == decimal_digits(spec_digits_value(bits)),
        r.1 == spec_exponent(bits),
        1 <= r.0@.len() <= MAX_DIGITS,
        MIN_POWER < r.0@.len() + r.1 <= MAX_POWER + 10,
{
    proof {
        lemma_scaled(bits);
        lemma_digits(bits);
    }
    let v = DiyFp::from_bits(bits);
    let (w_m, w_p) = v.normalized_boundaries();
    let (c_mk, k) = get_cached_power(w_p.e);
    let w = v.normalize().mul(c_mk);
    let wp = w_p.mul(c_mk);
    let wm = w_m.mul(c_mk);
    let upper = DiyFp::new(wp.f - 1, wp.e);
    let lower = DiyFp::new(wm.f + 1, wm.e);
    let delta = upper.sub(lower);
    let distance = upper.sub(w);
    digit_gen(upper.f as u64, delta.f as u64, distance.f as u64, (-upper.e) as u32, k)
}

/// Appends the text of the value with the bit pattern `bits`. A pattern
/// whose exponent field is all ones stands for no finite value: it gets the
/// text of the value that its fields would give in the next binade.
pub fn dtoa(wr: &mut Vec<u8>, bits: u64)
    ensures
        final(wr)@ == old(wr)@ + spec_dtoa(bits),
{
    assert(bits & 0x8000000000000000u64 != 0 <==> bits >= 0x8000000000000000u64) by (bit_vector);
    assert(bits & 0x7fffffffffffffffu64 == bits % 0x8000000000000000u64) by (bit_vector);
    let negative: bool = (bits & SIGN_BIT) != 0;
    let rest: u64 = bits & (SIGN_BIT - 1);
    if negative {
        wr.push(MINUS);
    }
    if rest == 0 {
        wr.push(ZERO);
        wr.push(POINT);
        wr.push(ZERO);
    } else {
        let (digits, k) = grisu2(bits);
        prettify(&digits, k, wr);
    }
    proof {
        assert(wr@ =~= old(wr)@ + spec_dtoa(bits));
    }
}

/// After scaling, the three numbers share an exponent in the window, the
/// value lies between the boundaries as they are after moving inwards, the
/// upper boundary is at least one, and it is at most `10^16` times as
/// large as the tolerance.
pub proof fn lemma_scaled(bits: u64)
    requires
        magnitude(bits) != 0,
    ensures
        ({
            let (wm, w, wp, k) = spec_scaled(bits);
            &&& wm.e == wp.e
            &&& w.e == wp.e
            &&& 34 <= -wp.e <= 60
            &&& wm.f + 1 <= w.f <= wp.f - 1
            &&& wp.f - wm.f >= 3
            &&& pow2((-wp.e) as nat) <= wp.f - 1
            &&& (wp.f - 1) / (pow2((-wp.e) as nat) as int) <= u32::MAX
            &&& wp.f - 1 <= 10000000000000000 * (wp.f - wm.f - 2)
            &&& MIN_POWER <= k <= MAX_POWER
        }),
{
    let v = DiyFp::spec_from_bits(bits);
    DiyFp::lemma_from_bits(bits);
    v.lemma_normalized_boundaries();
    let (w_m, w_p) = v.spec_normalized_boundaries();
    let vn = v.spec_normalize();
    lemma_get_cached_power(w_p.e as int);
    let (c_mk, k) = spec_get_cached_power(w_p.e as int);
    let (wm, w, wp, k2) = spec_scaled(bits);
    let t = (v.e - 1 - w_p.e) as nat;
    let c = c_mk.f as nat;
    let half = pow2((t - 1) as nat);
    let quarter = pow2((t - 2) as nat);
    let shift = (-wp.e) as nat;
    assert(MIN_POWER <= k <= MAX_POWER);
    assert(pow2(63) == 0x8000000000000000 && pow2(64) == 0x10000000000000000 && pow2(34)
        == 0x400000000) by {
        lemma2_to64();
        lemma2_to64_rest();
    }
    assert(pow2(t) == 2 * half && half == 2 * quarter && quarter >= 256) by {
        lemma2_to64();
        lemma_pow2_unfold(t);
        lemma_pow2_unfold((t - 1) as nat);
        lemma_pow2_increases(8, (t - 2) as nat);
    }
    assert(w_p.f == vn.f + 2 * half) by (nonlinear_arith)
        requires
            w_p.f == (2 * v.f + 1) * pow2(t),
            vn.f == 2 * v.f * pow2(t),
            pow2(t) == 2 * half,
    ;
    assert(vn.f >= w_m.f + 2 * quarter) by (nonlinear_arith)
        requires
            v.f != DP_HIDDEN_BIT ==> w_m.f == (2 * v.f - 1) * pow2(t),
            v.f == DP_HIDDEN_BIT ==> w_m.f == (4 * v.f - 1) * half,
            vn.f == 2 * v.f * pow2(t),
            pow2(t) == 2 * half,
            half == 2 * quarter,
            quarter >= 1,
    ;
    assert(w_p.f <= 0x20000000000000 * (w_p.f - w_m.f)) by (nonlinear_arith)
        requires
            v.f != DP_HIDDEN_BIT ==> w_m.f == (2 * v.f - 1) * pow2(t),
            v.f == DP_HIDDEN_BIT ==> w_m.f == (4 * v.f - 1) * half,
            w_p.f == (2 * v.f + 1) * pow2(t),
            pow2(t) == 2 * half,
            half >= 1,
            v.f < 0x20000000000000,
    ;
    assert(wm.f == rounded_product(w_m.f as nat, c, 64) && w.f == rounded_product(
        vn.f as nat,
        c,
        64,
    ) && wp.f == rounded_product(w_p.f as nat, c, 64)) by {
        lemma_rounded_product_fits(w_m.f as nat, c, 64);
        lemma_rounded_product_fits(vn.f as nat, c, 64);
        lemma_rounded_product_fits(w_p.f as nat, c, 64);
    }
    assert(wp.f >= w.f + half && w.f >= wm.f + quarter) by {
        lemma_rounded_product_gap(w_p.f as nat, vn.f as nat, c, half, 64);
        lemma_rounded_product_gap(vn.f as nat, w_m.f as nat, c, quarter, 64);
    }
    assert(wp.f - 1 <= 10000000000000000 * (wp.f - wm.f - 2)) by {
        lemma_scaled_ratio(
            w_p.f as nat,
            w_m.f as nat,
            c,
            64,
            0x20000000000000,
            10000000000000000,
            1024,
        );
    }
    assert(wp.f >= 0x4000000000000000) by {
        assert(w_p.f * c >= 0x8000000000000000 * 0x8000000000000000) by (nonlinear_arith)
            requires
                w_p.f >= 0x8000000000000000,
                c >= 0x8000000000000000,
        ;
    }
    assert(pow2(34) <= pow2(shift) <= 0x1000000000000000) by {
        lemma2_to64();
        lemma2_to64_rest();
        lemma_pow2_increases(shift, 60);
        lemma_pow2_increases(34, shift);
    }
    assert((wp.f - 1) / (pow2(shift) as int) <= u32::MAX) by {
        lemma_div_is_ordered_by_denominator(wp.f - 1, pow2(34) as int, pow2(shift) as int);
    }
}

/// A value that is not a zero has between one and seventeen digits, as many as
/// there are positions from the first to the last, and the weight of the
/// first digit is between `10^MIN_POWER` and `10^(MAX_POWER + 9)`.
pub proof fn lemma_digits(bits: u64)
    requires
        magnitude(bits) != 0,
    ensures
        1 <= decimal_digits(spec_digits_value(bits)).len() <= MAX_DIGITS,
        all_digits(decimal_digits(spec_digits_value(bits))),
        decimal_digits(spec_digits_value(bits)).len() == first_position(
            spec_upper(bits),
            spec_shift(bits),
        ) - spec_last_position(bits) + 1,
        0 <= first_position(spec_upper(bits), spec_shift(bits)) <= 9,
        MIN_POWER < spec_point(bits) <= MAX_POWER + 10,
{
    lemma_scaled(bits);
    let upper = spec_upper(bits);
    let delta = spec_delta(bits);
    let shift = spec_shift(bits);
    let whole = upper / pow2(shift);
    lemma_pow10_values();
    lemma_generated_len(upper, delta, spec_distance(bits), shift);
    lemma_digit_count(upper, delta, shift, 17);
    lemma_decimal_digits_shape(spec_digits_value(bits));
    assert(1 <= whole <= u32::MAX) by {
        lemma_pow2_pos(shift);
        lemma_div_is_ordered(pow2(shift) as int, upper as int, pow2(shift) as int);
        lemma_div_by_self(pow2(shift) as int);
    }
    lemma_decimal_digits_shape(whole);
    lemma_decimal_digits_bounds(whole);
    if decimal_digits(whole).len() > 10 {
        lemma_pow10_increases(10, (decimal_digits(whole).len() - 1) as nat);
    }
}

/// The digits of a value that is not a zero, read as a number with the
/// weight of their last position, lie between the scaled boundaries of the
/// value as they are after moving inwards. They are not all zero.
pub proof fn lemma_between_boundaries(bits: u64)
    requires
        magnitude(bits) != 0,
    ensures
        ({
            let kappa = spec_last_position(bits);
            let digits = spec_digits_value(bits) * unit(spec_shift(bits), kappa);
            let (wm, w, wp, k) = spec_scaled(bits);
            &&& (wm.f + 1) * scale(kappa) <= digits <= (wp.f - 1) * scale(kappa)
            &&& spec_digits_value(bits) >= 1
        }),
{
    let kappa = spec_last_position(bits);
    let (wm, w, wp, k) = spec_scaled(bits);
    lemma_scaled(bits);
    lemma_generated_within(
        spec_upper(bits),
        spec_delta(bits),
        spec_distance(bits),
        spec_shift(bits),
    );
    if kappa < 0 {
        lemma_pow10_step((-kappa) as nat);
    }
    assert((wm.f + 1) * scale(kappa) >= 1) by (nonlinear_arith)
        requires
            wm.f >= 0,
            scale(kappa) >= 1,
    ;
    if spec_digits_value(bits) == 0 {
        assert(spec_digits_value(bits) * unit(spec_shift(bits), kappa) == 0) by (nonlinear_arith)
            requires
                spec_digits_value(bits) == 0,
        ;
    }
}

/// The first digit of a value that is not a zero is not `0`.
pub proof fn lemma_first_digit(bits: u64)
    requires
        magnitude(bits) != 0,
    ensures
        decimal_digits(spec_digits_value(bits))[0] != ZERO,
{
    lemma_between_boundaries(bits);
    lemma_decimal_digits_shape(spec_digits_value(bits));
}

/// No shorter run of digits lies between the scaled boundaries as they are
/// after moving inwards: no multiple `q` of the weight of a position above
/// the last one, and not above the first, does.
pub proof fn lemma_no_shorter_digits(bits: u64, kappa: int, q: int)
    requires
        magnitude(bits) != 0,
        spec_last_position(bits) < kappa <= first_position(spec_upper(bits), spec_shift(bits)),
    ensures
        ({
            let (wm, w, wp, k) = spec_scaled(bits);
            !((wm.f + 1) * scale(kappa) <= q * unit(spec_shift(bits), kappa) <= (wp.f - 1) * scale(
                kappa,
            ))
        }),
{
    lemma_scaled(bits);
    lemma_no_shorter(spec_upper(bits), spec_delta(bits), spec_shift(bits), kappa, q);
}

/// The number that the digits of a value stand for, `spec_digits_value` times
/// ten to the power `spec_exponent`, lies strictly between the halfway points
/// from the value to its neighbours. Read back with rounding to nearest, it
/// gives the value again. Below a power of two the lower halfway point is
/// taken as for a neighbour half as far away as the upper one.
pub proof fn lemma_digits_between_neighbours(bits: u64)
    requires
        magnitude(bits) != 0,
    ensures
        ({
            let v = DiyFp::spec_from_bits(bits);
            let d = spec_digits_value(bits) as int;
            let x = spec_exponent(bits);
            &&& val(d, 0, x) < val(2 * v.f + 1, v.e - 1, 0)
            &&& v.f != DP_HIDDEN_BIT ==> val(2 * v.f - 1, v.e - 1, 0) < val(d, 0, x)
            &&& v.f == DP_HIDDEN_BIT ==> val(4 * v.f - 1, v.e - 2, 0) < val(d, 0, x)
        }),
{
    let v = DiyFp::spec_from_bits(bits);
    DiyFp::lemma_from_bits(bits);
    v.lemma_normalized_boundaries();
    let (w_m, w_p) = v.spec_normalized_boundaries();
    let index = cached_index(ALPHA - w_p.e);
    lemma_get_cached_power(w_p.e as int);
    lemma_cached_power_accuracy(index);
    let (c_mk, k) = spec_get_cached_power(w_p.e as int);
    let c = c_mk.f as nat;
    let ec = c_mk.e as int;
    let kc = -k;
    lemma_scaled(bits);
    lemma_between_boundaries(bits);
    lemma_digits(bits);
    let (wm, w, wp, k2) = spec_scaled(bits);
    let f = v.f as int;
    let e = v.e as int;
    let big = w_p.e as int;
    let t = (e - 1 - big) as nat;
    let d = spec_digits_value(bits) as int;
    let shift = spec_shift(bits);
    let kappa = spec_last_position(bits);
    let up = wp.f - 1;
    let lo = wm.f + 1;
    lemma2_to64();
    lemma2_to64_rest();
    lemma_pow10_values();
    lemma_rounded_product_fits(w_m.f as nat, c, 64);
    lemma_rounded_product_fits(w_p.f as nat, c, 64);
    // The boundaries as they are after moving inwards lie within the exact ones.
    lemma_rounded_product_near(w_p.f as nat, c, ec, kc, 64);
    lemma_rounded_product_near(w_m.f as nat, c, ec, kc, 64);
    lemma_val_move_order(up, ec + 64, 0, w_p.f as int, 0, kc, big, 0);
    lemma_val_move_order(w_m.f as int, 0, kc, lo, ec + 64, 0, big, 0);
    // The digits lie within the boundaries as they are after moving inwards.
    lemma_val_of_digits(d, kappa, up, shift);
    lemma_val_of_digits(d, kappa, lo, shift);
    assert(val(d, 0, kappa) < val(w_p.f as int, big, kc));
    assert(val(w_m.f as int, big, kc) < val(d, 0, kappa));
    // The exact boundaries are the halfway points.
    lemma_val_raise(2 * f + 1, big, kc, t, 0);
    lemma_val_raise(2 * f - 1, big, kc, t, 0);
    lemma_val_raise(4 * f - 1, big, kc, (t - 1) as nat, 0);
    assert(val(d, 0, kappa) < val(2 * f + 1, e - 1, kc));
    // The power of ten goes over from the halfway points to the digits.
    lemma_val_move_order(d, 0, kappa, 2 * f + 1, e - 1, kc, 0, -kc);
    lemma_val_move_order(2 * f - 1, e - 1, kc, d, 0, kappa, 0, -kc);
    lemma_val_move_order(4 * f - 1, e - 2, kc, d, 0, kappa, 0, -kc);
}

/// The text of a value, read as a decimal number, has the sign of the value.
/// For a zero it reads as zero, for any other value as a number strictly
/// between the halfway points from the magnitude of the value to its
/// neighbours, so that reading with rounding to nearest gives the value
/// back.
pub proof fn lemma_text_reads_back(bits: u64)
    ensures
        ({
            let (negative, m, x) = read_text(spec_dtoa(bits));
            let v = DiyFp::spec_from_bits(bits);
            let number = val(m as int, 0, x);
            &&& negative == is_negative(bits)
            &&& x >= MIN_DECIMAL
            &&& magnitude(bits) == 0 ==> m == 0
            &&& magnitude(bits) != 0 ==> number < val(2 * v.f + 1, v.e - 1, 0)
            &&& magnitude(bits) != 0 && v.f != DP_HIDDEN_BIT ==> val(2 * v.f - 1, v.e - 1, 0)
                < number
            &&& magnitude(bits) != 0 && v.f == DP_HIDDEN_BIT ==> val(4 * v.f - 1, v.e - 2, 0)
                < number
        }),
{
    let text = spec_dtoa(bits);
    let body: Seq<u8> = if magnitude(bits) == 0 {
        seq![ZERO, POINT, ZERO]
    } else {
        prettify_text(decimal_digits(spec_digits_value(bits)), spec_exponent(bits))
    };
    if is_negative(bits) {
        assert(text =~= seq![MINUS] + body);
        assert(text[0] == MINUS);
        assert(text.drop_first() =~= body);
    } else {
        assert(text =~= body);
    }
    if magnitude(bits) == 0 {
        let digits = seq![ZERO];
        assert(body =~= prettify_text(digits, 0));
        assert(digits.drop_last() =~= Seq::<u8>::empty());
        assert(digits_to_nat(digits.drop_last()) == 0);
        lemma_read_prettify(digits, 0);
        assert(0 * pow10(1) == 0);
    } else {
        let d = spec_digits_value(bits);
        let k = spec_exponent(bits);
        let digits = decimal_digits(d);
        lemma_digits(bits);
        lemma_digits_to_nat(d);
        lemma_read_prettify(digits, k);
        lemma_prettify_first(digits, k);
        lemma_digits_between_neighbours(bits);
        lemma2_to64();
        if is_positional(digits.len() + k) && k >= 0 {
            lemma_val_raise(d as int, 0, -1, 0, (k + 1) as nat);
            assert(d * (1 * pow10((k + 1) as nat)) == d * pow10((k + 1) as nat));
        }
    }
}

/// The text of a value is made of digits, the point, `e` and the minus sign
/// alone.
pub proof fn lemma_bytes(bits: u64)
    ensures
        forall|i: int|
            0 <= i < spec_dtoa(bits).len() ==> is_text_byte(#[trigger] spec_dtoa(bits)[i]),
{
    let text = spec_dtoa(bits);
    let body: Seq<u8> = if magnitude(bits) == 0 {
        seq![ZERO, POINT, ZERO]
    } else {
        prettify_text(decimal_digits(spec_digits_value(bits)), spec_exponent(bits))
    };
    let sign: int = if is_negative(bits) {
        1
    } else {
        0
    };
    if is_negative(bits) {
        assert(text =~= seq![MINUS] + body);
    } else {
        assert(text =~= body);
    }
    if magnitude(bits) != 0 {
        lemma_digits(bits);
        lemma_prettify_bytes(decimal_digits(spec_digits_value(bits)), spec_exponent(bits));
    }
    assert forall|i: int| 0 <= i < text.len() implies is_text_byte(#[trigger] text[i]) by {
        if i >= sign {
            assert(text[i] == body[i - sign]);
        }
    }
}

/// An `e` stands in the text of a value if and only if the value is not of
/// moderate size: if and only if it is not a zero and the weight of its
/// first digit is below `10^-6` or above `10^20`.
pub proof fn lemma_form(bits: u64)
    ensures
        spec_dtoa(bits).contains(EXP) <==> magnitude(bits) != 0 && !is_positional(spec_point(bits)),
{
    let text = spec_dtoa(bits);
    let body: Seq<u8> = if magnitude(bits) == 0 {
        seq![ZERO, POINT, ZERO]
    } else {
        prettify_text(decimal_digits(spec_digits_value(bits)), spec_exponent(bits))
    };
    let sign: int = if is_negative(bits) {
        1
    } else {
        0
    };
    if is_negative(bits) {
        assert(text =~= seq![MINUS] + body);
    } else {
        assert(text =~= body);
    }
    if magnitude(bits) != 0 {
        lemma_digits(bits);
        lemma_prettify_form(decimal_digits(spec_digits_value(bits)), spec_exponent(bits));
    }
    if body.contains(EXP) {
        let i = choose|i: int| 0 <= i < body.len() && body[i] == EXP;
        assert(text[i + sign] == EXP);
    }
    if text.contains(EXP) {
        let i = choose|i: int| 0 <= i < text.len() && text[i] == EXP;
        assert(body[i - sign] == EXP);
    }
}

/// A whole number of moderate size is written with all its digits before
/// the point, filled up with zeros, and ends in `.0`.
pub proof fn lemma_whole(bits: u64)
    requires
        magnitude(bits) != 0,
        0 <= spec_exponent(bits),
        spec_point(bits) <= 21,
    ensures
        spec_dtoa(bits) == (if is_negative(bits) {
            seq![MINUS]
        } else {
            Seq::<u8>::empty()
        }) + decimal_digits(spec_digits_value(bits)) + zeros(spec_exponent(bits) as nat)
            + seq![POINT, ZERO],
{
    let digits = decimal_digits(spec_digits_value(bits));
    let sign = if is_negative(bits) {
        seq![MINUS]
    } else {
        Seq::<u8>::empty()
    };
    lemma_digits(bits);
    lemma_prettify_whole(digits, spec_exponent(bits));
    assert(spec_dtoa(bits) =~= sign + digits + zeros(spec_exponent(bits) as nat) + seq![
        POINT,
        ZERO,
    ]);
}

/// The text of a value begins with `-` if and only if its sign bit is set.
pub proof fn lemma_sign(bits: u64)
    ensures
        spec_dtoa(bits).len() >= 3,
        spec_dtoa(bits)[0] == MINUS <==> is_negative(bits),
{
    lemma_text_len(bits);
    if magnitude(bits) != 0 {
        lemma_digits(bits);
        lemma_prettify_first(decimal_digits(spec_digits_value(bits)), spec_exponent(bits));
    }
}

/// The text of a value has at most 25 bytes, and at most 24 but for a
/// negative value of seventeen digits with five zeros between the point and
/// the first of them.
pub proof fn lemma_text_len(bits: u64)
    ensures
        spec_dtoa(bits).len() == spec_len(bits),
        3 <= spec_dtoa(bits).len() <= 25,
        spec_dtoa(bits).len() > 24 <==> magnitude(bits) != 0 && is_negative(bits) && spec_point(
            bits,
        ) == -5 && decimal_digits(spec_digits_value(bits)).len() == 17,
{
    if magnitude(bits) != 0 {
        lemma_digits(bits);
        lemma_prettify_len(decimal_digits(spec_digits_value(bits)), spec_exponent(bits));
        lemma_exponent_text_len(spec_point(bits) - 1);
    }
}

} // verus!
