//! Digit generation: the shortest run of decimal digits whose value lies
//! within a tolerance below a scaled upper boundary.
//!
//! The boundary is a fixed-point number `mp / 2^shift`. Digits are produced
//! from the most significant one down; generation stops at the first decimal
//! position at which what has not been written yet is within the tolerance.

use crate::decimal::{
    count_decimal_digit32, decimal_digits, lemma_decimal_digits_bounds, lemma_decimal_digits_len,
    lemma_decimal_digits_lower_last, lemma_decimal_digits_push, lemma_decimal_digits_shape,
    lemma_pow10_adds, lemma_pow10_increases, lemma_pow10_step, lemma_pow10_values, pow10,
    pow10_u64,
};
use vstd::arithmetic::div_mod::*;
use vstd::arithmetic::mul::*;
use vstd::arithmetic::power2::*;
use vstd::bits::*;
use vstd::prelude::*;

verus! {

/// The power of ten by which the boundary is scaled up to reach position
/// `kappa`: positions behind the point need one factor of ten each.
pub open spec fn scale(kappa: int) -> nat {
    if kappa < 0 {
        pow10((-kappa) as nat)
    } else {
        1
    }
}

/// The weight of one unit of the digit at position `kappa`, on the scale of
/// that position.
pub open spec fn unit(shift: nat, kappa: int) -> nat {
    if kappa >= 0 {
        pow10(kappa as nat) * pow2(shift)
    } else {
        pow2(shift)
    }
}

/// The number whose decimal digits are the digits of `mp / 2^shift` down to
/// position `kappa`.
pub open spec fn prefix_value(mp: nat, shift: nat, kappa: int) -> nat {
    (mp * scale(kappa)) / unit(shift, kappa)
}

/// What the digits down to position `kappa` leave out of `mp`, on the scale
/// of that position.
pub open spec fn rest(mp: nat, shift: nat, kappa: int) -> nat {
    (mp * scale(kappa)) % unit(shift, kappa)
}

/// Whether the digits down to position `kappa` are within the tolerance:
/// whether what they leave out is no more than the tolerance on the scale of
/// that position.
pub open spec fn stops(mp: nat, delta: nat, shift: nat, kappa: int) -> bool {
    rest(mp, shift, kappa) <= delta * scale(kappa)
}

/// The first position at or below `kappa` at which generation stops. Twenty
/// places behind the point are never passed: a tolerance of at least one is
/// by then larger than any rest below `2^64`.
pub open spec fn stop_position(mp: nat, delta: nat, shift: nat, kappa: int) -> int
    decreases kappa + 20,
{
    if stops(mp, delta, shift, kappa) || kappa <= -20 {
        kappa
    } else {
        stop_position(mp, delta, shift, kappa - 1)
    }
}

/// The position of the first digit of `mp / 2^shift`.
pub open spec fn first_position(mp: nat, shift: nat) -> int {
    decimal_digits(mp / pow2(shift)).len() - 1
}

/// The position of the last generated digit.
pub open spec fn last_position(mp: nat, delta: nat, shift: nat) -> int {
    stop_position(mp, delta, shift, first_position(mp, shift))
}

/// How often the last digit is lowered to bring the digits closer to the
/// value itself, which lies `dist` below the boundary. `room` is the last
/// digit: it is not lowered below zero. A step is taken while the digits are
/// still above the value, the next lower digits are still within the
/// tolerance, and they are closer to the value than the present ones.
pub open spec fn weed_steps(rest: nat, delta: nat, unit: nat, dist: nat, room: nat) -> nat
    decreases room,
{
    if room > 0 && rest < dist && delta - rest >= unit && (rest + unit < dist || dist - rest > rest
        + unit - dist) {
        1 + weed_steps(rest + unit, delta, unit, dist, (room - 1) as nat)
    } else {
        0
    }
}

/// The number whose decimal digits are generated for the boundary
/// `mp / 2^shift`, the tolerance `delta / 2^shift` and a value that lies
/// `dist / 2^shift` below the boundary.
pub open spec fn generated_value(mp: nat, delta: nat, dist: nat, shift: nat) -> nat {
    let kappa = last_position(mp, delta, shift);
    let prefix = prefix_value(mp, shift, kappa);
    (prefix - weed_steps(
        rest(mp, shift, kappa),
        delta * scale(kappa),
        unit(shift, kappa),
        dist * scale(kappa),
        prefix % 10,
    )) as nat
}

/// How far two numbers are apart.
pub open spec fn apart(a: int, b: int) -> int {
    if a >= b {
        a - b
    } else {
        b - a
    }
}

/// Lowers the last digit in `buffer` while that brings the digits closer to
/// the value, which lies `wp_w` below the boundary. `rest` is what the digits
/// leave out of the boundary, `ten_kappa` the weight of one unit of the last
/// digit, `delta` the tolerance.
pub fn grisu_round(buffer: &mut Vec<u8>, delta: u64, rest: u64, ten_kappa: u64, wp_w: u64)
    requires
        old(buffer)@.len() >= 1,
        48 <= old(buffer)@.last() <= 57,
        rest <= delta,
    ensures
        final(buffer)@ == old(buffer)@.update(
            old(buffer)@.len() - 1,
            (old(buffer)@.last() - weed_steps(
                rest as nat,
                delta as nat,
                ten_kappa as nat,
                wp_w as nat,
                (old(buffer)@.last() - 48) as nat,
            )) as u8,
        ),
{
    let last: usize = buffer.len() - 1;
    let mut rest: u64 = rest;
    let mut digit: u8 = buffer[last];
    let ghost rest0 = rest as nat;
    let ghost room0 = (digit - 48) as nat;
    while digit > 48 && rest < wp_w && delta - rest >= ten_kappa && (rest + ten_kappa < wp_w || wp_w
        - rest > rest + ten_kappa - wp_w)
        invariant
            48 <= digit <= 57,
            rest <= delta,
            digit - 48 <= room0,
            weed_steps(rest0, delta as nat, ten_kappa as nat, wp_w as nat, room0) == (room0 - (digit
                - 48)) + weed_steps(
                rest as nat,
                delta as nat,
                ten_kappa as nat,
                wp_w as nat,
                (digit - 48) as nat,
            ),
        decreases digit,
    {
        digit = digit - 1;
        rest = rest + ten_kappa;
    }
    buffer.set(last, digit);
}

/// Generates the digits for the boundary `mp_f / 2^shift`, the tolerance
/// `delta / 2^shift` and a value that lies `wp_w / 2^shift` below the
/// boundary. Returns the digits, and `k` raised by the position of the last
/// digit.
pub fn digit_gen(mp_f: u64, delta: u64, wp_w: u64, shift: u32, k: isize) -> (r: (Vec<u8>, isize))
    requires
        shift <= 60,
        pow2(shift as nat) <= mp_f,
        mp_f / (pow2(shift as nat) as u64) <= u32::MAX,
        1 <= delta,
        wp_w <= delta,
        isize::MIN + 20 <= k <= isize::MAX - 10,
    ensures
        r.0@ == decimal_digits(
            generated_value(mp_f as nat, delta as nat, wp_w as nat, shift as nat),
        ),
        r.1 == k + last_position(mp_f as nat, delta as nat, shift as nat),
        r.0@.len() == first_position(mp_f as nat, shift as nat) - last_position(
            mp_f as nat,
            delta as nat,
            shift as nat,
        ) + 1,
        0 <= first_position(mp_f as nat, shift as nat) <= 9,
        -19 <= last_position(mp_f as nat, delta as nat, shift as nat) <= first_position(
            mp_f as nat,
            shift as nat,
        ),
{
    let ghost mp = mp_f as nat;
    let ghost s = shift as nat;
    let ghost tol = delta as nat;
    let ghost way = wp_w as nat;
    proof {
        lemma2_to64();
        lemma2_to64_rest();
        lemma_pow2_pos(s);
        lemma_pow2_strictly_increases(s, 61);
        lemma_u64_shl_is_mul(1, shift as u64);
        lemma_u64_shr_is_div(mp_f, shift as u64);
        lemma_u64_low_bits_mask_is_mod(mp_f, s);
        lemma_pow10_values();
    }
    let one: u64 = 1u64 << shift;
    let whole: u32 = (mp_f >> shift) as u32;
    let mut p1: u64 = whole as u64;
    let mut p2: u64 = mp_f & (one - 1);
    let mut kappa: usize = count_decimal_digit32(whole);
    let mut buffer: Vec<u8> = Vec::with_capacity(32);
    let ghost top = kappa as int;
    proof {
        lemma_fundamental_div_mod(mp as int, one as int);
        assert(whole >= 1) by (nonlinear_arith)
            requires
                mp == one * whole + p2,
                p2 < one,
                one <= mp,
        ;
        lemma_small_mod(whole as nat, pow10(kappa as nat));
    }
    while kappa > 0
        invariant
            0 <= kappa <= top <= 10,
            top == first_position(mp, s) + 1,
            mp == mp_f,
            s == shift,
            tol == delta,
            way == wp_w,
            s <= 60,
            one == pow2(s),
            whole == mp / pow2(s),
            whole >= 1,
            p2 == mp % pow2(s),
            mp == one * whole + p2,
            pow10((top - 1) as nat) <= whole,
            whole < pow10(top as nat),
            p1 == whole as nat % pow10(kappa as nat),
            buffer@.len() == top - kappa,
            kappa < top ==> buffer@ == decimal_digits(whole as nat / pow10(kappa as nat)),
            kappa < top ==> whole as nat / pow10(kappa as nat) >= 1,
            kappa < top ==> p1 * one + p2 > delta,
            last_position(mp, tol, s) == stop_position(mp, tol, s, kappa - 1),
            isize::MIN + 20 <= k <= isize::MAX - 10,
        decreases kappa,
    {
        let weight: u64 = pow10_u64(kappa - 1);
        proof {
            lemma_pow10_step((kappa - 1) as nat);
        }
        let d: u64 = p1 / weight;
        let low: u64 = p1 % weight;
        proof {
            let here = (kappa - 1) as nat;
            lemma_pow10_step(here);
            lemma_pow10_increases(here, (top - 1) as nat);
            lemma_integer_digit(whole as nat, kappa as nat);
            lemma_integer_position(mp, s, here);
            lemma_mod_bound(whole as int, pow10(here) as int);
            assert(mp * scale(here as int) == mp);
            assert(rest(mp, s, here as int) <= mp) by {
                lemma_mod_decreases(mp, unit(s, here as int));
            }
            assert(low * one <= rest(mp, s, here as int));
            assert(weight * one <= mp) by (nonlinear_arith)
                requires
                    weight <= whole,
                    whole * one <= mp,
                    one >= 0,
            ;
            lemma_u64_shl_is_mul(low, shift as u64);
            lemma_u64_shl_is_mul(weight, shift as u64);
            if kappa as int == top {
                lemma_div_is_ordered(pow10(here) as int, whole as int, pow10(here) as int);
                lemma_div_by_self(pow10(here) as int);
                lemma_small_div_converse(whole as int, pow10(kappa as nat) as int);
                lemma_basic_div(whole as int, pow10(kappa as nat) as int);
                assert(whole as nat / pow10(kappa as nat) == 0);
                assert(d >= 1);
                assert(decimal_digits(d as nat) =~= seq![(48 + d) as u8]);
            } else {
                lemma_decimal_digits_push(whole as nat / pow10(kappa as nat), d as nat);
            }
        }
        p1 = low;
        buffer.push(48u8 + d as u8);
        kappa = kappa - 1;
        let tmp: u64 = (p1 << shift) + p2;
        if tmp <= delta {
            proof {
                lemma_decimal_digits_shape(whole as nat / pow10(kappa as nat));
            }
            let ghost before = buffer@;
            grisu_round(&mut buffer, delta, tmp, weight << shift, wp_w);
            proof {
                let prefix = prefix_value(mp, s, kappa as int);
                assert(tmp == rest(mp, s, kappa as int));
                assert(delta * scale(kappa as int) == delta);
                assert(wp_w * scale(kappa as int) == wp_w);
                lemma_weed_steps_bounds(tmp as nat, tol, unit(s, kappa as int), way, prefix % 10);
                lemma_decimal_digits_lower_last(
                    prefix,
                    weed_steps(tmp as nat, tol, unit(s, kappa as int), way, prefix % 10),
                );
            }
            return (buffer, k + kappa as isize);
        }
    }
    let mut tolerance: u64 = delta;
    let mut distance: u64 = wp_w;
    let mut places: usize = 0;
    proof {
        lemma_pow10_values();
        lemma2_to64_rest();
        lemma_pow2_strictly_increases(s, 61);
        lemma_mod_bound(mp as int, one as int);
        assert(p1 == 0);
        assert(p1 * one == 0) by (nonlinear_arith)
            requires
                p1 == 0,
        ;
        assert(mp * pow10(0) == mp);
        assert(whole as nat / pow10(0) == whole);
        assert(tolerance == tol * pow10(0));
        assert(distance == way * pow10(0));
    }
    loop
        invariant
            mp == mp_f,
            s == shift,
            tol == delta,
            way == wp_w,
            s <= 60,
            one == pow2(s),
            one <= 0x1000_0000_0000_0000,
            way <= tol,
            tol >= 1,
            places <= 18,
            p2 == (mp * pow10(places as nat)) % pow2(s),
            tolerance == tol * pow10(places as nat),
            distance == way * pow10(places as nat),
            buffer@ == decimal_digits((mp * pow10(places as nat)) / pow2(s)),
            buffer@.len() == top + places,
            top == first_position(mp, s) + 1,
            1 <= top <= 10,
            (mp * pow10(places as nat)) / pow2(s) >= 1,
            1 <= tolerance < p2 < one,
            last_position(mp, tol, s) == stop_position(mp, tol, s, -places - 1),
            isize::MIN + 20 <= k <= isize::MAX - 10,
        decreases one - tolerance,
    {
        proof {
            lemma_fraction_digit(mp, s, places as nat);
            lemma_pow10_step(places as nat);
            lemma_u64_shr_is_div((p2 * 10) as u64, shift as u64);
            lemma_u64_low_bits_mask_is_mod((p2 * 10) as u64, s);
            assert(way * pow10(places as nat) <= tol * pow10(places as nat)) by (nonlinear_arith)
                requires
                    way <= tol,
            ;
            assert(tol * pow10((places + 1) as nat) == 10 * (tol * pow10(places as nat)))
                by (nonlinear_arith)
                requires
                    pow10((places + 1) as nat) == 10 * pow10(places as nat),
            ;
            assert(way * pow10((places + 1) as nat) == 10 * (way * pow10(places as nat)))
                by (nonlinear_arith)
                requires
                    pow10((places + 1) as nat) == 10 * pow10(places as nat),
            ;
            lemma_decimal_digits_push(
                (mp * pow10(places as nat)) / pow2(s),
                (10 * p2 as nat) / pow2(s),
            );
        }
        p2 = p2 * 10;
        tolerance = tolerance * 10;
        distance = distance * 10;
        let d: u8 = (p2 >> shift) as u8;
        buffer.push(48u8 + d);
        p2 = p2 & (one - 1);
        places = places + 1;
        if p2 <= tolerance {
            proof {
                lemma_decimal_digits_shape(prefix_value(mp, s, -(places as int)));
            }
            let ghost before = buffer@;
            grisu_round(&mut buffer, tolerance, p2, one, distance);
            proof {
                let kappa = -(places as int);
                let prefix = prefix_value(mp, s, kappa);
                lemma_weed_steps_bounds(
                    p2 as nat,
                    tolerance as nat,
                    unit(s, kappa),
                    distance as nat,
                    prefix % 10,
                );
                lemma_decimal_digits_lower_last(
                    prefix,
                    weed_steps(
                        p2 as nat,
                        tolerance as nat,
                        unit(s, kappa),
                        distance as nat,
                        prefix % 10,
                    ),
                );
            }
            return (buffer, k - places as isize);
        }
        proof {
            assert(places <= 18) by {
                lemma_pow10_values();
                if places >= 19 {
                    lemma_pow10_increases(19, places as nat);
                    assert(tol * pow10(places as nat) >= pow10(19)) by (nonlinear_arith)
                        requires
                            tol >= 1,
                            pow10(places as nat) >= pow10(19),
                    ;
                }
            }
        }
    }
}

/// The generated digits, read as a number with the weight of their last
/// position, lie at most the tolerance below the boundary and not above it.
pub proof fn lemma_generated_within(mp: nat, delta: nat, dist: nat, shift: nat)
    requires
        1 <= delta,
        shift <= 64,
    ensures
        ({
            let kappa = last_position(mp, delta, shift);
            let value = generated_value(mp, delta, dist, shift);
            (mp - delta) * scale(kappa) <= value * unit(shift, kappa) <= mp * scale(kappa)
        }),
{
    let kappa = last_position(mp, delta, shift);
    let value = generated_value(mp, delta, dist, shift);
    let prefix = prefix_value(mp, shift, kappa);
    let left = rest(mp, shift, kappa);
    let u = unit(shift, kappa);
    let sc = scale(kappa);
    let n = weed_steps(left, delta * sc, u, dist * sc, prefix % 10);
    lemma_decimal_digits_shape(mp / pow2(shift));
    lemma_stop_position_stops(mp, delta, shift, first_position(mp, shift));
    lemma_weed_steps_bounds(left, delta * sc, u, dist * sc, prefix % 10);
    lemma_pow2_pos(shift);
    if kappa >= 0 {
        lemma_pow10_step(kappa as nat);
        lemma_mul_strictly_positive(pow10(kappa as nat) as int, pow2(shift) as int);
    }
    lemma_fundamental_div_mod((mp * sc) as int, u as int);
    assert(n <= prefix);
    assert(value * u == mp * sc - left - n * u) by (nonlinear_arith)
        requires
            mp * sc == u * prefix + left,
            value == prefix - n,
    ;
    assert((mp - delta) * sc == mp * sc - delta * sc) by (nonlinear_arith);
}

/// No shorter run of digits would do: no multiple `q` of the weight of a
/// position above the last one, and not above the first, lies between the
/// boundary less the tolerance and the boundary.
pub proof fn lemma_no_shorter(mp: nat, delta: nat, shift: nat, kappa: int, q: int)
    requires
        last_position(mp, delta, shift) < kappa <= first_position(mp, shift),
    ensures
        !((mp - delta) * scale(kappa) <= q * unit(shift, kappa) <= mp * scale(kappa)),
{
    let u = unit(shift, kappa) as int;
    let sc = scale(kappa) as int;
    let n = (mp * sc) as int;
    let prefix = prefix_value(mp, shift, kappa) as int;
    let left = rest(mp, shift, kappa) as int;
    lemma_no_earlier_stop(mp, delta, shift, first_position(mp, shift), kappa);
    lemma_pow2_pos(shift);
    if kappa >= 0 {
        lemma_pow10_step(kappa as nat);
        lemma_mul_strictly_positive(pow10(kappa as nat) as int, pow2(shift) as int);
    }
    lemma_fundamental_div_mod(n, u);
    lemma_mod_bound(n, u);
    assert((mp - delta) * sc == n - delta * sc) by (nonlinear_arith)
        requires
            n == mp * sc,
    ;
    if q * u <= n {
        assert(q <= prefix) by (nonlinear_arith)
            requires
                q * u <= n,
                n == u * prefix + left,
                left < u,
                u >= 1,
        ;
        assert(q * u <= prefix * u) by (nonlinear_arith)
            requires
                q <= prefix,
                u >= 1,
        ;
        assert(prefix * u == u * prefix) by (nonlinear_arith);
    }
}

/// No more than `n` digits are generated where the boundary is at most
/// `10^(n - 1)` times as large as the tolerance.
pub proof fn lemma_digit_count(mp: nat, delta: nat, shift: nat, n: nat)
    requires
        pow2(shift) <= mp,
        1 <= n,
        mp <= pow10((n - 1) as nat) * delta,
    ensures
        first_position(mp, shift) - n < last_position(mp, delta, shift) <= first_position(
            mp,
            shift,
        ),
{
    let one = pow2(shift);
    let whole = mp / one;
    let first = first_position(mp, shift);
    let at = first + 1 - n;
    lemma_pow2_pos(shift);
    lemma_fundamental_div_mod(mp as int, one as int);
    lemma_mod_bound(mp as int, one as int);
    let low = mp % one;
    assert(whole >= 1) by (nonlinear_arith)
        requires
            mp == one * whole + low,
            low < one,
            one <= mp,
            whole >= 0,
    ;
    lemma_decimal_digits_bounds(whole);
    let top = pow10(first as nat);
    assert(top * one <= mp) by (nonlinear_arith)
        requires
            top <= whole,
            mp == one * whole + low,
            0 <= low,
    ;
    lemma_pow10_step((n - 1) as nat);
    if at >= 0 {
        let u = unit(shift, at);
        lemma_pow10_adds(at as nat, (n - 1) as nat);
        lemma_pow10_step(at as nat);
        assert(pow10((n - 1) as nat) * u <= pow10((n - 1) as nat) * delta) by (nonlinear_arith)
            requires
                top == pow10(at as nat) * pow10((n - 1) as nat),
                u == pow10(at as nat) * one,
                top * one <= mp,
                mp <= pow10((n - 1) as nat) * delta,
        ;
        assert(u <= delta) by (nonlinear_arith)
            requires
                pow10((n - 1) as nat) * u <= pow10((n - 1) as nat) * delta,
                pow10((n - 1) as nat) >= 1,
        ;
        assert(u >= 1) by (nonlinear_arith)
            requires
                u == pow10(at as nat) * one,
                pow10(at as nat) >= 1,
                one >= 1,
        ;
        lemma_mod_bound((mp * scale(at)) as int, u as int);
        assert(delta * scale(at) == delta);
    } else {
        let j = (-at) as nat;
        lemma_pow10_adds(first as nat, j);
        lemma_pow10_step(first as nat);
        assert(top * one <= top * (pow10(j) * delta)) by (nonlinear_arith)
            requires
                pow10((n - 1) as nat) == top * pow10(j),
                top * one <= mp,
                mp <= pow10((n - 1) as nat) * delta,
        ;
        assert(one <= pow10(j) * delta) by (nonlinear_arith)
            requires
                top * one <= top * (pow10(j) * delta),
                top >= 1,
        ;
        lemma_mul_is_commutative(pow10(j) as int, delta as int);
        lemma_mod_bound((mp * scale(at)) as int, one as int);
    }
    assert(stops(mp, delta, shift, at));
    lemma_stop_position_reaches(mp, delta, shift, first, at);
}

/// As many digits are generated as there are positions from the first one
/// down to the last.
pub proof fn lemma_generated_len(mp: nat, delta: nat, dist: nat, shift: nat)
    requires
        pow2(shift) <= mp,
    ensures
        decimal_digits(generated_value(mp, delta, dist, shift)).len() == first_position(mp, shift)
            - last_position(mp, delta, shift) + 1,
        last_position(mp, delta, shift) <= first_position(mp, shift),
{
    let kappa = last_position(mp, delta, shift);
    let prefix = prefix_value(mp, shift, kappa);
    lemma_stop_position_range(mp, delta, shift, first_position(mp, shift));
    lemma_prefix_len(mp, shift, kappa);
    let n = weed_steps(
        rest(mp, shift, kappa),
        delta * scale(kappa),
        unit(shift, kappa),
        dist * scale(kappa),
        prefix % 10,
    );
    lemma_weed_steps_room(
        rest(mp, shift, kappa),
        delta * scale(kappa),
        unit(shift, kappa),
        dist * scale(kappa),
        prefix % 10,
    );
    lemma_decimal_digits_lower_last(prefix, n);
}

/// Every step of `weed_steps` brings the digits closer to the value: after
/// all of them the rest is no further from `dist` than before, and closer
/// if a step was taken.
pub proof fn lemma_weed_steps_closer(rest: nat, delta: nat, unit: nat, dist: nat, room: nat)
    requires
        unit >= 1,
    ensures
        ({
            let n = weed_steps(rest, delta, unit, dist, room);
            let after = (rest + n * unit) as int;
            &&& apart(after, dist as int) <= apart(rest as int, dist as int)
            &&& n > 0 ==> apart(after, dist as int) < apart(rest as int, dist as int)
        }),
    decreases room,
{
    let n = weed_steps(rest, delta, unit, dist, room);
    if n > 0 {
        let m = weed_steps(rest + unit, delta, unit, dist, (room - 1) as nat);
        lemma_weed_steps_closer(rest + unit, delta, unit, dist, (room - 1) as nat);
        assert(n * unit == unit + m * unit) by (nonlinear_arith)
            requires
                n == 1 + m,
        ;
    } else {
        assert(n * unit == 0) by (nonlinear_arith)
            requires
                n == 0,
        ;
    }
}

/// `weed_steps` never takes more steps than the last digit allows.
pub proof fn lemma_weed_steps_room(rest: nat, delta: nat, unit: nat, dist: nat, room: nat)
    ensures
        weed_steps(rest, delta, unit, dist, room) <= room,
    decreases room,
{
    if weed_steps(rest, delta, unit, dist, room) > 0 {
        lemma_weed_steps_room(rest + unit, delta, unit, dist, (room - 1) as nat);
    }
}

/// `weed_steps` never takes more steps than the last digit allows, and the
/// rest stays within the tolerance.
pub proof fn lemma_weed_steps_bounds(rest: nat, delta: nat, unit: nat, dist: nat, room: nat)
    requires
        rest <= delta,
    ensures
        weed_steps(rest, delta, unit, dist, room) <= room,
        rest + weed_steps(rest, delta, unit, dist, room) * unit <= delta,
    decreases room,
{
    let n = weed_steps(rest, delta, unit, dist, room);
    if n > 0 {
        lemma_weed_steps_bounds(rest + unit, delta, unit, dist, (room - 1) as nat);
        let m = weed_steps(rest + unit, delta, unit, dist, (room - 1) as nat);
        assert(n == 1 + m);
        assert(n * unit == unit + m * unit) by (nonlinear_arith)
            requires
                n == 1 + m,
        ;
    } else {
        assert(n * unit == 0) by (nonlinear_arith)
            requires
                n == 0,
        ;
    }
}

/// The position that generation stops at is not above the one it starts
/// from, and not more than twenty places behind the point.
pub proof fn lemma_stop_position_range(mp: nat, delta: nat, shift: nat, from: int)
    ensures
        stop_position(mp, delta, shift, from) <= from,
        from >= -20 ==> stop_position(mp, delta, shift, from) >= -20,
    decreases from + 20,
{
    if !(stops(mp, delta, shift, from) || from <= -20) {
        lemma_stop_position_range(mp, delta, shift, from - 1);
    }
}

/// Generation from position `from` down does not pass a position at which
/// it stops.
pub proof fn lemma_stop_position_reaches(mp: nat, delta: nat, shift: nat, from: int, at: int)
    requires
        at <= from,
        stops(mp, delta, shift, at),
    ensures
        at <= stop_position(mp, delta, shift, from) <= from,
    decreases from - at,
{
    if !(stops(mp, delta, shift, from) || from <= -20) {
        lemma_stop_position_reaches(mp, delta, shift, from - 1, at);
    }
}

/// With a tolerance of at least one, generation from a position not more
/// than twenty places behind the point stops where the digits are within the
/// tolerance.
pub proof fn lemma_stop_position_stops(mp: nat, delta: nat, shift: nat, from: int)
    requires
        1 <= delta,
        shift <= 64,
        -20 <= from,
    ensures
        stops(mp, delta, shift, stop_position(mp, delta, shift, from)),
    decreases from + 20,
{
    if stops(mp, delta, shift, from) {
    } else if from <= -20 {
        lemma_pow10_values();
        lemma_pow10_step(19);
        lemma2_to64();
        lemma2_to64_rest();
        lemma_pow2_pos(shift);
        if shift < 64 {
            lemma_pow2_strictly_increases(shift, 64);
        }
        lemma_mod_bound((mp * scale(from)) as int, pow2(shift) as int);
        assert(delta * pow10(20) >= pow10(20)) by (nonlinear_arith)
            requires
                delta >= 1,
        ;
    } else {
        lemma_stop_position_stops(mp, delta, shift, from - 1);
    }
}

/// Generation stops at no position above the last one.
pub proof fn lemma_no_earlier_stop(mp: nat, delta: nat, shift: nat, from: int, kappa: int)
    requires
        stop_position(mp, delta, shift, from) < kappa <= from,
    ensures
        !stops(mp, delta, shift, kappa),
    decreases from - kappa,
{
    if kappa < from {
        lemma_no_earlier_stop(mp, delta, shift, from - 1, kappa);
    }
}

/// The digits down to a position are as many as the positions from the
/// first one down to it.
pub proof fn lemma_prefix_len(mp: nat, shift: nat, kappa: int)
    requires
        pow2(shift) <= mp,
        kappa <= first_position(mp, shift),
    ensures
        decimal_digits(prefix_value(mp, shift, kappa)).len() == first_position(mp, shift) - kappa
            + 1,
        prefix_value(mp, shift, kappa) >= 1,
{
    let one = pow2(shift);
    let whole = mp / one;
    let low = mp % one;
    let first = first_position(mp, shift);
    let count = (first - kappa + 1) as nat;
    let prefix = prefix_value(mp, shift, kappa);
    lemma_pow2_pos(shift);
    lemma_fundamental_div_mod(mp as int, one as int);
    lemma_mod_bound(mp as int, one as int);
    assert(whole >= 1) by (nonlinear_arith)
        requires
            mp == one * whole + low,
            low < one,
            one <= mp,
            whole >= 0,
    ;
    lemma_decimal_digits_bounds(whole);
    lemma_pow10_step(first as nat);
    lemma_pow10_step((count - 1) as nat);
    let below = pow10((count - 1) as nat);
    let above = pow10(count);
    if kappa >= 0 {
        let ten = pow10(kappa as nat);
        lemma_pow10_step(kappa as nat);
        lemma_integer_position(mp, shift, kappa as nat);
        lemma_pow10_adds((count - 1) as nat, kappa as nat);
        lemma_pow10_adds(count, kappa as nat);
        lemma_fundamental_div_mod(whole as int, ten as int);
        lemma_mod_bound(whole as int, ten as int);
        let r = whole % ten;
        assert(below <= prefix < above) by (nonlinear_arith)
            requires
                whole == ten * prefix + r,
                0 <= r < ten,
                below * ten <= whole,
                whole < above * ten,
        ;
    } else {
        let j = (-kappa) as nat;
        let ten = pow10(j);
        lemma_pow10_step(j);
        lemma_pow10_adds(first as nat, j);
        lemma_pow10_adds((first + 1) as nat, j);
        let n = mp * ten;
        lemma_fundamental_div_mod(n as int, one as int);
        lemma_mod_bound(n as int, one as int);
        let r = n % one;
        assert(below * one <= n < above * one) by (nonlinear_arith)
            requires
                n == mp * ten,
                mp == one * whole + low,
                0 <= low < one,
                pow10(first as nat) <= whole,
                whole + 1 <= pow10((first + 1) as nat),
                below == pow10(first as nat) * ten,
                above == pow10((first + 1) as nat) * ten,
                ten >= 1,
        ;
        assert(below <= prefix < above) by (nonlinear_arith)
            requires
                n == one * prefix + r,
                0 <= r < one,
                below * one <= n,
                n < above * one,
        ;
    }
    lemma_decimal_digits_len(prefix, count);
}

/// In front of the point, the prefix and the rest split the integer part of
/// the boundary at a power of ten.
pub proof fn lemma_integer_position(mp: nat, shift: nat, kappa: nat)
    ensures
        prefix_value(mp, shift, kappa as int) == (mp / pow2(shift)) / pow10(kappa),
        rest(mp, shift, kappa as int) == ((mp / pow2(shift)) % pow10(kappa)) * pow2(shift) + mp
            % pow2(shift),
        unit(shift, kappa as int) >= 1,
{
    let one = pow2(shift) as int;
    let ten = pow10(kappa) as int;
    lemma_pow2_pos(shift);
    lemma_pow10_step(kappa);
    lemma_mul_is_commutative(ten, one);
    lemma_mul_strictly_positive(ten, one);
    lemma_div_denominator(mp as int, one, ten);
    lemma_mod_breakdown(mp as int, one, ten);
    lemma_mul_is_commutative(one, (mp as int / one) % ten);
}

/// Taking one more digit in front of the point.
pub proof fn lemma_integer_digit(x: nat, kappa: nat)
    requires
        kappa >= 1,
    ensures
        x / pow10((kappa - 1) as nat) == 10 * (x / pow10(kappa)) + (x % pow10(kappa)) / pow10(
            (kappa - 1) as nat,
        ),
        (x % pow10(kappa)) % pow10((kappa - 1) as nat) == x % pow10((kappa - 1) as nat),
        (x % pow10(kappa)) / pow10((kappa - 1) as nat) < 10,
{
    let a = pow10((kappa - 1) as nat) as int;
    let b = pow10(kappa) as int;
    lemma_pow10_step((kappa - 1) as nat);
    assert(b == 10 * a);
    let q = x as int / b;
    let r = x as int % b;
    lemma_fundamental_div_mod(x as int, b);
    let d = r / a;
    let r2 = r % a;
    lemma_fundamental_div_mod(r, a);
    lemma_mod_bound(x as int, b);
    lemma_mod_bound(r, a);
    assert(d < 10) by (nonlinear_arith)
        requires
            r == a * d + r2,
            0 <= r2,
            r < 10 * a,
            a >= 1,
    ;
    assert(d >= 0) by (nonlinear_arith)
        requires
            r == a * d + r2,
            r2 < a,
            0 <= r,
            a >= 1,
    ;
    assert(x as int == (10 * q + d) * a + r2) by (nonlinear_arith)
        requires
            x as int == b * q + r,
            b == 10 * a,
            r == a * d + r2,
    ;
    lemma_fundamental_div_mod_converse(x as int, a, 10 * q + d, r2);
}

/// Taking one more digit behind the point.
pub proof fn lemma_fraction_digit(mp: nat, shift: nat, j: nat)
    ensures
        prefix_value(mp, shift, -(j + 1)) == 10 * ((mp * pow10(j)) / pow2(shift)) + (10 * ((mp
            * pow10(j)) % pow2(shift))) / pow2(shift),
        rest(mp, shift, -(j + 1)) == (10 * ((mp * pow10(j)) % pow2(shift))) % pow2(shift),
        (10 * ((mp * pow10(j)) % pow2(shift))) / pow2(shift) < 10,
{
    let one = pow2(shift) as int;
    lemma_pow2_pos(shift);
    lemma_pow10_step(j);
    let n = (mp * pow10(j)) as int;
    let q = n / one;
    let r = n % one;
    lemma_fundamental_div_mod(n, one);
    lemma_mod_bound(n, one);
    let d = (10 * r) / one;
    let r2 = (10 * r) % one;
    lemma_fundamental_div_mod(10 * r, one);
    lemma_mod_bound(10 * r, one);
    assert(d < 10) by (nonlinear_arith)
        requires
            10 * r == one * d + r2,
            0 <= r2,
            r < one,
            one >= 1,
    ;
    let n2 = (mp * pow10(j + 1)) as int;
    assert(n2 == 10 * n) by (nonlinear_arith)
        requires
            n2 == mp * pow10(j + 1),
            n == mp * pow10(j),
            pow10(j + 1) == 10 * pow10(j),
    ;
    assert(n2 == (10 * q + d) * one + r2) by (nonlinear_arith)
        requires
            n2 == 10 * n,
            n == one * q + r,
            10 * r == one * d + r2,
    ;
    lemma_fundamental_div_mod_converse(n2, one, 10 * q + d, r2);
}

} // verus!
