//! Exact comparison of numbers of the form `n * 2^a * 10^b`.
//!
//! Such a number is taken as a multiple of `2^-1300 * 10^-400`, which makes
//! an integer of it for every exponent that occurs with single and double
//! precision.

use crate::binary::rounded_product;
use crate::decimal::{lemma_pow10_adds, lemma_pow10_step, pow10};
use crate::digit_gen::{scale, unit};
use vstd::arithmetic::div_mod::*;
use vstd::arithmetic::mul::*;
use vstd::arithmetic::power2::*;
use vstd::prelude::*;

verus! {

/// The least binary exponent that `val` takes.
pub const MIN_BINARY: i32 = -1300;

/// The least decimal exponent that `val` takes.
pub const MIN_DECIMAL: i32 = -400;

/// The number `n * 2^a * 10^b` as a multiple of `2^-1300 * 10^-400`, for
/// `a >= -1300` and `b >= -400`.
pub open spec fn val(n: int, a: int, b: int) -> int {
    n * grain(a, b)
}

/// The number `2^a * 10^b` as a multiple of `2^-1300 * 10^-400`.
pub open spec fn grain(a: int, b: int) -> int {
    (pow2((a - MIN_BINARY) as nat) * pow10((b - MIN_DECIMAL) as nat)) as int
}

/// A grain is at least one.
pub proof fn lemma_grain_positive(a: int, b: int)
    ensures
        grain(a, b) >= 1,
{
    lemma_pow2_pos((a - MIN_BINARY) as nat);
    lemma_pow10_step((b - MIN_DECIMAL) as nat);
    lemma_mul_strictly_positive(
        pow2((a - MIN_BINARY) as nat) as int,
        pow10((b - MIN_DECIMAL) as nat) as int,
    );
}

/// Raising the exponents by `da` and `db` multiplies by `2^da * 10^db`.
pub proof fn lemma_grain_raise(a: int, b: int, da: nat, db: nat)
    requires
        a >= MIN_BINARY,
        b >= MIN_DECIMAL,
    ensures
        grain(a + da, b + db) == grain(a, b) * (pow2(da) * pow10(db)),
        pow2(da) * pow10(db) >= 1,
{
    let p = pow2((a - MIN_BINARY) as nat) as int;
    let q = pow10((b - MIN_DECIMAL) as nat) as int;
    let x = pow2(da) as int;
    let y = pow10(db) as int;
    lemma_pow2_adds((a - MIN_BINARY) as nat, da);
    lemma_pow10_adds((b - MIN_DECIMAL) as nat, db);
    lemma_pow2_pos(da);
    lemma_pow10_step(db);
    lemma_mul_strictly_positive(x, y);
    assert((p * x) * (q * y) == (p * q) * (x * y)) by (nonlinear_arith);
}

/// A factor `2^da * 10^db` of the number goes into the exponents.
pub proof fn lemma_val_raise(n: int, a: int, b: int, da: nat, db: nat)
    requires
        a >= MIN_BINARY,
        b >= MIN_DECIMAL,
    ensures
        val(n, a + da, b + db) == val(n * (pow2(da) * pow10(db)), a, b),
{
    lemma_grain_raise(a, b, da, db);
    let g = grain(a, b);
    let z = pow2(da) * pow10(db);
    assert(n * (g * z) == (n * z) * g) by (nonlinear_arith);
}

/// Numbers with the same exponents compare as their first parts do.
pub proof fn lemma_val_order(n1: int, n2: int, a: int, b: int)
    ensures
        n1 <= n2 <==> val(n1, a, b) <= val(n2, a, b),
        n1 < n2 <==> val(n1, a, b) < val(n2, a, b),
{
    lemma_grain_positive(a, b);
    let g = grain(a, b);
    assert(n1 <= n2 ==> n1 * g <= n2 * g) by (nonlinear_arith)
        requires
            g >= 1,
    ;
    assert(n1 < n2 ==> n1 * g < n2 * g) by (nonlinear_arith)
        requires
            g >= 1,
    ;
    assert(n1 > n2 ==> n1 * g > n2 * g) by (nonlinear_arith)
        requires
            g >= 1,
    ;
}

/// A factor of the number is a factor of the value.
pub proof fn lemma_val_times(m: int, n: int, a: int, b: int)
    ensures
        val(m * n, a, b) == m * val(n, a, b),
{
    let g = grain(a, b);
    assert((m * n) * g == m * (n * g)) by (nonlinear_arith);
}

/// Raising the exponents of two numbers by the same amounts keeps their
/// order.
pub proof fn lemma_val_raise_order(
    n1: int,
    a1: int,
    b1: int,
    n2: int,
    a2: int,
    b2: int,
    da: nat,
    db: nat,
)
    requires
        a1 >= MIN_BINARY,
        b1 >= MIN_DECIMAL,
        a2 >= MIN_BINARY,
        b2 >= MIN_DECIMAL,
    ensures
        val(n1, a1, b1) <= val(n2, a2, b2) <==> val(n1, a1 + da, b1 + db) <= val(
            n2,
            a2 + da,
            b2 + db,
        ),
        val(n1, a1, b1) < val(n2, a2, b2) <==> val(n1, a1 + da, b1 + db) < val(
            n2,
            a2 + da,
            b2 + db,
        ),
{
    lemma_grain_raise(a1, b1, da, db);
    lemma_grain_raise(a2, b2, da, db);
    let z = pow2(da) * pow10(db);
    let x = val(n1, a1, b1);
    let y = val(n2, a2, b2);
    assert(val(n1, a1 + da, b1 + db) == x * z) by (nonlinear_arith)
        requires
            val(n1, a1 + da, b1 + db) == n1 * (grain(a1, b1) * z),
            x == n1 * grain(a1, b1),
    ;
    assert(val(n2, a2 + da, b2 + db) == y * z) by (nonlinear_arith)
        requires
            val(n2, a2 + da, b2 + db) == n2 * (grain(a2, b2) * z),
            y == n2 * grain(a2, b2),
    ;
    assert(x <= y ==> x * z <= y * z) by (nonlinear_arith)
        requires
            z >= 1,
    ;
    assert(x < y ==> x * z < y * z) by (nonlinear_arith)
        requires
            z >= 1,
    ;
    assert(x > y ==> x * z > y * z) by (nonlinear_arith)
        requires
            z >= 1,
    ;
}

/// Moving the exponents of two numbers by the same amounts, up or down,
/// keeps their order.
pub proof fn lemma_val_move_order(
    n1: int,
    a1: int,
    b1: int,
    n2: int,
    a2: int,
    b2: int,
    da: int,
    db: int,
)
    requires
        a1 >= MIN_BINARY,
        b1 >= MIN_DECIMAL,
        a2 >= MIN_BINARY,
        b2 >= MIN_DECIMAL,
        a1 + da >= MIN_BINARY,
        b1 + db >= MIN_DECIMAL,
        a2 + da >= MIN_BINARY,
        b2 + db >= MIN_DECIMAL,
    ensures
        val(n1, a1, b1) <= val(n2, a2, b2) <==> val(n1, a1 + da, b1 + db) <= val(
            n2,
            a2 + da,
            b2 + db,
        ),
        val(n1, a1, b1) < val(n2, a2, b2) <==> val(n1, a1 + da, b1 + db) < val(
            n2,
            a2 + da,
            b2 + db,
        ),
{
    // First the binary exponents, then the decimal ones.
    if da >= 0 {
        lemma_val_raise_order(n1, a1, b1, n2, a2, b2, da as nat, 0);
    } else {
        lemma_val_raise_order(n1, a1 + da, b1, n2, a2 + da, b2, (-da) as nat, 0);
    }
    if db >= 0 {
        lemma_val_raise_order(n1, a1 + da, b1, n2, a2 + da, b2, 0, db as nat);
    } else {
        lemma_val_raise_order(n1, a1 + da, b1 + db, n2, a2 + da, b2 + db, 0, (-db) as nat);
    }
}

/// Digits `d` with the weight of position `kappa`, beside a number `n` of
/// `shift` fraction bits: they compare as `d * unit(shift, kappa)` and
/// `n * scale(kappa)` do.
pub proof fn lemma_val_of_digits(d: int, kappa: int, n: int, shift: nat)
    requires
        shift <= -MIN_BINARY,
        MIN_DECIMAL <= kappa,
    ensures
        n * scale(kappa) <= d * unit(shift, kappa) <==> val(n, -(shift as int), 0) <= val(
            d,
            0,
            kappa,
        ),
        d * unit(shift, kappa) <= n * scale(kappa) <==> val(d, 0, kappa) <= val(
            n,
            -(shift as int),
            0,
        ),
{
    let one = pow2(shift) as int;
    let low = -(shift as int);
    let u = unit(shift, kappa) as int;
    let sc = scale(kappa) as int;
    lemma_pow2_pos(shift);
    lemma2_to64();
    lemma_pow10_step(0);
    if kappa >= 0 {
        // Both in units of 2^-shift.
        let ten = pow10(kappa as nat) as int;
        lemma_val_raise(d, low, 0, shift, kappa as nat);
        assert(d * (one * ten) == d * u) by (nonlinear_arith)
            requires
                u == ten * one,
        ;
        assert(n * sc == n);
        assert(val(d, 0, kappa) == val(d * u, low, 0));
        lemma_val_order(n, d * u, low, 0);
        lemma_val_order(d * u, n, low, 0);
    } else {
        // Both in units of 2^-shift * 10^kappa.
        let ten = pow10((-kappa) as nat) as int;
        lemma_val_raise(d, low, kappa, shift, 0);
        lemma_val_raise(n, low, kappa, 0, (-kappa) as nat);
        assert(d * (one * 1) == d * u) by (nonlinear_arith)
            requires
                u == one,
        ;
        assert(n * (1 * ten) == n * sc) by (nonlinear_arith)
            requires
                sc == ten,
        ;
        assert(val(d, 0, kappa) == val(d * u, low, kappa));
        assert(val(n, low, 0) == val(n * sc, low, kappa));
        lemma_val_order(n * sc, d * u, low, kappa);
        lemma_val_order(d * u, n * sc, low, kappa);
    }
}

/// Whether `c * 2^ec` is `10^kc` rounded to a multiple of `2^ec`: whether
/// the two differ by at most half of `2^ec`.
pub open spec fn is_rounded_power(c: int, ec: int, kc: int) -> bool {
    val(2 * c - 1, ec - 1, 0) <= val(1, 0, kc) <= val(2 * c + 1, ec - 1, 0)
}

/// `c * 2^ec` is `10^kc` rounded, shown on the powers themselves: for a
/// power of ten above one against `2^(ec - 1)`, for a power of ten below
/// one with the sides exchanged.
pub proof fn lemma_rounded_power(c: int, ec: int, kc: int)
    requires
        MIN_BINARY < ec,
        MIN_DECIMAL <= kc,
        (kc >= 0) == (ec >= 1),
        kc >= 0 ==> (2 * c - 1) * pow2((ec - 1) as nat) <= pow10(kc as nat) <= (2 * c + 1) * pow2(
            (ec - 1) as nat,
        ),
        kc < 0 ==> (2 * c - 1) * pow10((-kc) as nat) <= pow2((1 - ec) as nat) <= (2 * c + 1)
            * pow10((-kc) as nat),
    ensures
        is_rounded_power(c, ec, kc),
{
    lemma2_to64();
    lemma_pow10_step(0);
    if kc >= 0 {
        let two = pow2((ec - 1) as nat) as int;
        let ten = pow10(kc as nat) as int;
        lemma_val_raise(2 * c - 1, 0, 0, (ec - 1) as nat, 0);
        lemma_val_raise(2 * c + 1, 0, 0, (ec - 1) as nat, 0);
        lemma_val_raise(1, 0, 0, 0, kc as nat);
        lemma_val_order((2 * c - 1) * (two * 1), 1 * (1 * ten), 0, 0);
        lemma_val_order(1 * (1 * ten), (2 * c + 1) * (two * 1), 0, 0);
    } else {
        let two = pow2((1 - ec) as nat) as int;
        let ten = pow10((-kc) as nat) as int;
        lemma_val_raise(2 * c - 1, ec - 1, kc, 0, (-kc) as nat);
        lemma_val_raise(2 * c + 1, ec - 1, kc, 0, (-kc) as nat);
        lemma_val_raise(1, ec - 1, kc, (1 - ec) as nat, 0);
        lemma_val_order((2 * c - 1) * (1 * ten), 1 * (two * 1), ec - 1, kc);
        lemma_val_order(1 * (two * 1), (2 * c + 1) * (1 * ten), ec - 1, kc);
    }
}

/// `c * 2^ec` is `10^kc` rounded, shown for a power of ten above one with a
/// negative `ec` on the values `two` of `2^(1 - ec)` and `ten` of `10^kc`.
pub proof fn lemma_rounded_power_small(c: int, ec: int, kc: int, two: int, ten: int)
    requires
        MIN_BINARY < ec < 1,
        0 <= kc,
        two == pow2((1 - ec) as nat),
        ten == pow10(kc as nat),
        2 * c - 1 <= two * ten <= 2 * c + 1,
    ensures
        is_rounded_power(c, ec, kc),
{
    lemma_val_raise(1, ec - 1, 0, (1 - ec) as nat, kc as nat);
    lemma_val_order(2 * c - 1, 1 * (two * ten), ec - 1, 0);
    lemma_val_order(1 * (two * ten), 2 * c + 1, ec - 1, 0);
}

/// The product of `x` and a rounded power of ten, itself rounded to `width`
/// bits, is less than one unit away from `x` times the power of ten.
pub proof fn lemma_rounded_product_near(x: nat, c: nat, ec: int, kc: int, width: nat)
    requires
        is_rounded_power(c as int, ec, kc),
        1 <= width,
        x < pow2(width),
        MIN_BINARY < ec,
        MIN_DECIMAL <= kc,
    ensures
        val(rounded_product(x, c, width) - 1, ec + width, 0) < val(x as int, 0, kc),
        val(x as int, 0, kc) < val(rounded_product(x, c, width) as int + 1, ec + width, 0),
{
    let h = pow2((width - 1) as nat) as int;
    let m = pow2(width) as int;
    let r = rounded_product(x, c, width) as int;
    let xi = x as int;
    let ci = c as int;
    let xc = xi * ci;
    lemma_pow2_unfold(width);
    lemma_pow2_unfold(width + 1);
    lemma2_to64();
    lemma_pow10_step(0);
    lemma_fundamental_div_mod(xc + h, m);
    lemma_mod_bound(xc + h, m);
    let left = (xc + h) % m;
    assert((r - 1) * ((2 * m) * 1) < xi * (2 * ci - 1)) by (nonlinear_arith)
        requires
            xc + h == m * r + left,
            0 <= left,
            xc == xi * ci,
            m == 2 * h,
            xi < m,
    ;
    assert(xi * (2 * ci + 1) < (r + 1) * ((2 * m) * 1)) by (nonlinear_arith)
        requires
            xc + h == m * r + left,
            left < m,
            xc == xi * ci,
            m == 2 * h,
            xi < m,
    ;
    lemma_val_raise(r - 1, ec - 1, 0, width + 1, 0);
    lemma_val_raise(r + 1, ec - 1, 0, width + 1, 0);
    lemma_val_order((r - 1) * ((2 * m) * 1), xi * (2 * ci - 1), ec - 1, 0);
    lemma_val_order(xi * (2 * ci + 1), (r + 1) * ((2 * m) * 1), ec - 1, 0);
    lemma_val_times(xi, 2 * ci - 1, ec - 1, 0);
    lemma_val_times(xi, 2 * ci + 1, ec - 1, 0);
    lemma_val_times(xi, 1, 0, kc);
    let lo = val(2 * ci - 1, ec - 1, 0);
    let mid = val(1, 0, kc);
    let hi = val(2 * ci + 1, ec - 1, 0);
    assert(xi * lo <= xi * mid <= xi * hi) by (nonlinear_arith)
        requires
            lo <= mid <= hi,
            xi >= 0,
    ;
}

} // verus!
