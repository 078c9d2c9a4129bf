//! Facts on powers of two and on rounded products that both significand
//! widths share.

use vstd::arithmetic::div_mod::*;
use vstd::arithmetic::mul::*;
use vstd::arithmetic::power2::*;
use vstd::prelude::*;

verus! {

/// How often the positive number `f` has to be doubled to reach `2^top`.
pub open spec fn shift_to_top(f: nat, top: nat) -> nat
    decreases
            (if f >= pow2(top) {
                0
            } else {
                pow2(top) - f
            }),
{
    if f == 0 || f >= pow2(top) {
        0
    } else {
        1 + shift_to_top(2 * f, top)
    }
}

/// The next power of two is twice as large.
pub proof fn lemma_pow2_double(n: nat)
    ensures
        pow2(n + 1) == 2 * pow2(n),
        pow2(n) >= 1,
{
    lemma_pow2_unfold(n + 1);
    lemma_pow2_pos(n);
}

/// Powers of two grow with their exponents.
pub proof fn lemma_pow2_increases(a: nat, b: nat)
    requires
        a <= b,
    ensures
        pow2(a) <= pow2(b),
{
    if a < b {
        lemma_pow2_strictly_increases(a, b);
    }
}

/// Doubled `shift_to_top` times, a positive number below `2^(top + 1)` has
/// its highest bit at position `top`.
pub proof fn lemma_shift_to_top(f: nat, top: nat)
    requires
        0 < f < pow2(top + 1),
    ensures
        pow2(top) <= f * pow2(shift_to_top(f, top)) < pow2(top + 1),
        shift_to_top(f, top) <= top,
    decreases
            (if f >= pow2(top) {
                0
            } else {
                pow2(top) - f
            }),
{
    lemma_pow2_double(top);
    lemma2_to64();
    if f >= pow2(top) {
        assert(f * pow2(0) == f);
    } else {
        lemma_shift_to_top(2 * f, top);
        let s = shift_to_top(2 * f, top);
        lemma_pow2_double(s);
        assert(f * pow2(s + 1) == (2 * f) * pow2(s)) by (nonlinear_arith)
            requires
                pow2(s + 1) == 2 * pow2(s),
        ;
        if s + 1 > top {
            lemma_pow2_increases(top, s);
            assert((2 * f) * pow2(s) >= 2 * pow2(top)) by (nonlinear_arith)
                requires
                    f >= 1,
                    pow2(s) >= pow2(top),
            ;
        }
    }
}

/// Only one shift brings the highest bit of a number to position `top`.
pub proof fn lemma_shift_to_top_unique(f: nat, top: nat, s: nat)
    requires
        pow2(top) <= f * pow2(s) < pow2(top + 1),
    ensures
        s == shift_to_top(f, top),
    decreases s,
{
    lemma_pow2_double(top);
    lemma2_to64();
    if f == 0 {
        assert(f * pow2(s) == 0);
    } else if s == 0 {
        assert(f * pow2(0) == f);
    } else {
        let t = (s - 1) as nat;
        lemma_pow2_double(t);
        assert(f * pow2(s) == (2 * f) * pow2(t)) by (nonlinear_arith)
            requires
                pow2(s) == 2 * pow2(t),
        ;
        assert(f < pow2(top)) by (nonlinear_arith)
            requires
                f * pow2(s) < 2 * pow2(top),
                pow2(s) == 2 * pow2(t),
                pow2(t) >= 1,
        ;
        lemma_shift_to_top_unique(2 * f, top, t);
    }
}

/// If shifting the odd number `2 * f + 1` up by `t` bits brings its highest
/// bit to position `top`, then shifting `f` up by `t + 1` bits does so too.
pub proof fn lemma_shift_below_odd(f: nat, top: nat, t: nat)
    requires
        t < top,
        pow2(top) <= (2 * f + 1) * pow2(t) < pow2(top + 1),
    ensures
        pow2(top) <= f * pow2(t + 1) < pow2(top + 1),
{
    let u = pow2((top - t - 1) as nat);
    let p = pow2(t);
    lemma_pow2_double((top - t - 1) as nat);
    lemma_pow2_double(t);
    lemma_pow2_adds((top - t) as nat, t);
    assert(f >= u) by (nonlinear_arith)
        requires
            2 * u * p <= (2 * f + 1) * p,
            p >= 1,
    ;
    assert(f * (2 * p) >= 2 * u * p) by (nonlinear_arith)
        requires
            f >= u,
            p >= 1,
    ;
    assert(f * (2 * p) < (2 * f + 1) * p) by (nonlinear_arith)
        requires
            p >= 1,
    ;
}

/// The product of `a` and `c`, rounded to `width` bits, a tie upwards.
pub open spec fn rounded_product(a: nat, c: nat, width: nat) -> nat {
    (a * c + pow2((width - 1) as nat)) / pow2(width)
}

/// Rounded products keep their distance: where `a` lies `2 * g` above `b`
/// and the highest bit of `c` is set, the product of `a` and `c`, rounded
/// to `width` bits, lies at least `g` above that of `b` and `c`.
pub proof fn lemma_rounded_product_gap(a: nat, b: nat, c: nat, g: nat, width: nat)
    requires
        width >= 1,
        a >= b + 2 * g,
        c >= pow2((width - 1) as nat),
    ensures
        rounded_product(a, c, width) >= rounded_product(b, c, width) + g,
{
    let h = pow2((width - 1) as nat) as int;
    let m = pow2(width) as int;
    lemma_pow2_double((width - 1) as nat);
    assert(a * c + h >= (b * c + h) + g * m) by (nonlinear_arith)
        requires
            a >= b + 2 * g,
            c >= h,
            m == 2 * h,
            h >= 1,
    ;
    lemma_div_is_ordered((b * c + h) + g * m, a * c + h, m);
    lemma_div_multiples_vanish_fancy(g as int, 0, m);
    lemma_fundamental_div_mod(b * c + h, m);
    lemma_mod_bound(b * c + h, m);
    let q = (b * c + h) / m;
    let r = (b * c + h) % m;
    assert((b * c + h) + g * m == (q + g) * m + r) by (nonlinear_arith)
        requires
            b * c + h == m * q + r,
    ;
    lemma_fundamental_div_mod_converse((b * c + h) + g * m, m, q + g, r);
}

/// A rounded product of two numbers of `width` bits has `width` bits.
pub proof fn lemma_rounded_product_fits(a: nat, c: nat, width: nat)
    requires
        width >= 1,
        a < pow2(width),
        c < pow2(width),
    ensures
        rounded_product(a, c, width) < pow2(width),
{
    let h = pow2((width - 1) as nat) as int;
    let m = pow2(width) as int;
    lemma_pow2_double((width - 1) as nat);
    assert(a * c + h < m * m) by (nonlinear_arith)
        requires
            0 <= a <= m - 1,
            0 <= c <= m - 1,
            m == 2 * h,
            h >= 1,
    ;
    lemma_div_by_multiple_is_strongly_ordered(a * c + h, m * m, m, m);
    lemma_div_by_multiple(m, m);
}

/// Scaling keeps the ratio of a boundary to the width of its interval, but
/// for the rounding. Let `a` be at most `big` times as large as its distance
/// from `b`, which is at least `gmin`, and let the highest bit of `c` be
/// set. Then the scaled `a`, moved inwards by one, is at most `ten` times as
/// large as its distance from the scaled `b`, moved inwards by one too,
/// where `ten` exceeds `big` by enough to make up for the rounding.
pub proof fn lemma_scaled_ratio(
    a: nat,
    b: nat,
    c: nat,
    width: nat,
    big: nat,
    ten: nat,
    gmin: nat,
)
    requires
        width >= 1,
        b <= a,
        a - b >= gmin,
        a <= big * (a - b),
        pow2((width - 1) as nat) <= c,
        big < ten,
        (ten - big) * gmin >= 6 * ten + 2,
    ensures
        rounded_product(a, c, width) - 1 <= ten * (rounded_product(a, c, width) - rounded_product(
            b,
            c,
            width,
        ) - 2),
{
    let h = pow2((width - 1) as nat) as int;
    let m = pow2(width) as int;
    lemma_pow2_double((width - 1) as nat);
    let up = rounded_product(a, c, width) as int;
    let lo = rounded_product(b, c, width) as int;
    let g = (a - b) as int;
    let x = g * c;
    let ac = a * c;
    let bc = b * c;
    lemma_fundamental_div_mod(ac + h, m);
    lemma_mod_bound(ac + h, m);
    lemma_fundamental_div_mod(bc + h, m);
    lemma_mod_bound(bc + h, m);
    let up_m = m * up;
    let lo_m = m * lo;
    assert(ac - bc == x) by (nonlinear_arith)
        requires
            ac == a * c,
            bc == b * c,
            x == (a - b) * c,
    ;
    assert(ac <= big * x) by (nonlinear_arith)
        requires
            ac == a * c,
            x == g * c,
            a <= big * g,
            c >= 0,
    ;
    assert((ten - big) * x >= (6 * ten + 2) * h) by (nonlinear_arith)
        requires
            x == g * c,
            g >= gmin,
            c >= h,
            h >= 1,
            gmin >= 0,
            ten > big,
            (ten - big) * gmin >= 6 * ten + 2,
    ;
    // The distance of the scaled boundaries, less two, in units of 2^-width.
    let d_m = up_m - lo_m - 2 * m;
    assert(d_m >= x - 3 * m + 1);
    assert(ten * d_m >= ten * (x - 3 * m + 1)) by (nonlinear_arith)
        requires
            d_m >= x - 3 * m + 1,
            ten >= 0,
    ;
    assert(ten * (x - 3 * m + 1) == ten * x - 6 * (ten * h) + ten) by (nonlinear_arith)
        requires
            m == 2 * h,
    ;
    assert((ten - big) * x == ten * x - big * x) by (nonlinear_arith);
    assert((6 * ten + 2) * h == 6 * (ten * h) + 2 * h) by (nonlinear_arith);
    assert(up_m - m <= ten * d_m);
    assert(ten * d_m == m * (ten * (up - lo - 2))) by (nonlinear_arith)
        requires
            d_m == up_m - lo_m - 2 * m,
            up_m == m * up,
            lo_m == m * lo,
    ;
    assert(up_m - m == m * (up - 1)) by (nonlinear_arith)
        requires
            up_m == m * up,
    ;
    assert(up - 1 <= ten * (up - lo - 2)) by (nonlinear_arith)
        requires
            m * (up - 1) <= m * (ten * (up - lo - 2)),
            m >= 1,
    ;
}

} // verus!
