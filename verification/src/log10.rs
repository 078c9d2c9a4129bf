//! The decimal logarithm of powers of two, in integers.
//!
//! `log10(2)` lies between the fractions `351 / 1166` and `146 / 485`:
//! `10^351 < 2^1166` and `2^485 < 10^146`. The two are neighbours, in that
//! `146 * 1166 - 351 * 485 = 1`, so no fraction between them has a
//! denominator below `485 + 1166 = 1651`.

use crate::decimal::{lemma_pow10_adds, lemma_pow10_step, lemma_pow10_values, pow10};
use vstd::arithmetic::power::*;
use vstd::arithmetic::power2::*;
use vstd::assert_by_contradiction;
use vstd::prelude::*;

verus! {

/// `n * log10(2)` rounded up to an integer, for `-1651 < n < 1651`.
pub open spec fn ceil_log10_pow2(n: int) -> int {
    if n >= 0 {
        (146 * n + 484) / 485
    } else {
        -((351 * (-n)) / 1166)
    }
}

/// Bounds from above multiply: from `2^a1 <= m1 * 10^b1` and
/// `2^a2 <= m2 * 10^b2` follows `2^(a1 + a2) <= m3 * 10^(b1 + b2 + c)` for
/// every `m3 * 10^c` that is at least `m1 * m2`.
proof fn lemma_above_mul(
    a1: nat,
    m1: nat,
    b1: nat,
    a2: nat,
    m2: nat,
    b2: nat,
    m3: nat,
    c: nat,
)
    requires
        pow2(a1) <= m1 * pow10(b1),
        pow2(a2) <= m2 * pow10(b2),
        m1 * m2 <= m3 * pow10(c),
    ensures
        pow2(a1 + a2) <= m3 * pow10(b1 + b2 + c),
{
    lemma_pow2_adds(a1, a2);
    lemma_pow10_adds(b1, b2);
    lemma_pow10_adds(b1 + b2, c);
    let p1 = pow10(b1);
    let p2 = pow10(b2);
    let pc = pow10(c);
    let x1 = pow2(a1);
    let x2 = pow2(a2);
    assert(x1 * x2 <= (m1 * p1) * (m2 * p2)) by (nonlinear_arith)
        requires
            x1 <= m1 * p1,
            x2 <= m2 * p2,
    ;
    assert((m1 * p1) * (m2 * p2) == (m1 * m2) * (p1 * p2)) by (nonlinear_arith);
    assert((m1 * m2) * (p1 * p2) <= (m3 * pc) * (p1 * p2)) by (nonlinear_arith)
        requires
            m1 * m2 <= m3 * pc,
    ;
    assert((m3 * pc) * (p1 * p2) == m3 * ((p1 * p2) * pc)) by (nonlinear_arith);
}

/// Bounds from below multiply: from `m1 * 10^b1 <= 2^a1` and
/// `m2 * 10^b2 <= 2^a2` follows `m3 * 10^(b1 + b2 + c) <= 2^(a1 + a2)` for
/// every `m3 * 10^c` that is at most `m1 * m2`.
proof fn lemma_below_mul(
    a1: nat,
    m1: nat,
    b1: nat,
    a2: nat,
    m2: nat,
    b2: nat,
    m3: nat,
    c: nat,
)
    requires
        m1 * pow10(b1) <= pow2(a1),
        m2 * pow10(b2) <= pow2(a2),
        m3 * pow10(c) <= m1 * m2,
    ensures
        m3 * pow10(b1 + b2 + c) <= pow2(a1 + a2),
{
    lemma_pow2_adds(a1, a2);
    lemma_pow10_adds(b1, b2);
    lemma_pow10_adds(b1 + b2, c);
    let p1 = pow10(b1);
    let p2 = pow10(b2);
    let pc = pow10(c);
    let x1 = pow2(a1);
    let x2 = pow2(a2);
    assert((m1 * p1) * (m2 * p2) <= x1 * x2) by (nonlinear_arith)
        requires
            m1 * p1 <= x1,
            m2 * p2 <= x2,
    ;
    assert((m1 * p1) * (m2 * p2) == (m1 * m2) * (p1 * p2)) by (nonlinear_arith);
    assert((m3 * pc) * (p1 * p2) <= (m1 * m2) * (p1 * p2)) by (nonlinear_arith)
        requires
            m3 * pc <= m1 * m2,
    ;
    assert((m3 * pc) * (p1 * p2) == m3 * ((p1 * p2) * pc)) by (nonlinear_arith);
}

/// `2^485 < 10^146`: the fraction `146 / 485` lies above `log10(2)`.
pub proof fn lemma_log10_2_upper()
    ensures
        pow2(485) < pow10(146),
{
    lemma2_to64();
    lemma_pow10_values();
    lemma_above_mul(1, 2, 0, 1, 2, 0, 4, 0);
    lemma_above_mul(2, 4, 0, 1, 2, 0, 8, 0);
    lemma_above_mul(3, 8, 0, 3, 8, 0, 64, 0);
    lemma_above_mul(6, 64, 0, 1, 2, 0, 128, 0);
    lemma_above_mul(7, 128, 0, 7, 128, 0, 16384, 0);
    lemma_above_mul(14, 16384, 0, 1, 2, 0, 32768, 0);
    lemma_above_mul(15, 32768, 0, 15, 32768, 0, 1073741824, 0);
    lemma_above_mul(30, 1073741824, 0, 30, 1073741824, 0, 115292150461, 7);
    lemma_above_mul(60, 115292150461, 7, 60, 115292150461, 7, 132922799580, 11);
    lemma_above_mul(120, 132922799580, 25, 1, 2, 0, 265845599160, 0);
    lemma_above_mul(121, 265845599160, 25, 121, 265845599160, 25, 706738825928, 11);
    lemma_above_mul(242, 706738825928, 61, 242, 706738825928, 61, 499479768075, 12);
    lemma_above_mul(484, 499479768075, 134, 1, 2, 0, 998959536150, 0);
    lemma_pow10_adds(134, 12);
    lemma_pow10_step(134);
    assert(998959536150 * pow10(134) < pow10(12) * pow10(134)) by (nonlinear_arith)
        requires
            pow10(12) == 1_000_000_000_000,
            pow10(134) >= 1,
    ;
}

/// `10^351 < 2^1166`: the fraction `351 / 1166` lies below `log10(2)`.
pub proof fn lemma_log10_2_lower()
    ensures
        pow10(351) < pow2(1166),
{
    lemma2_to64();
    lemma_pow10_values();
    lemma_below_mul(1, 2, 0, 1, 2, 0, 4, 0);
    lemma_below_mul(2, 4, 0, 2, 4, 0, 16, 0);
    lemma_below_mul(4, 16, 0, 4, 16, 0, 256, 0);
    lemma_below_mul(8, 256, 0, 1, 2, 0, 512, 0);
    lemma_below_mul(9, 512, 0, 9, 512, 0, 262144, 0);
    lemma_below_mul(18, 262144, 0, 18, 262144, 0, 68719476736, 0);
    lemma_below_mul(36, 68719476736, 0, 36, 68719476736, 0, 472236648286, 10);
    lemma_below_mul(72, 472236648286, 10, 72, 472236648286, 10, 223007451984, 12);
    lemma_below_mul(144, 223007451984, 32, 1, 2, 0, 446014903968, 0);
    lemma_below_mul(145, 446014903968, 32, 145, 446014903968, 32, 198929294561, 12);
    lemma_below_mul(290, 198929294561, 76, 1, 2, 0, 397858589122, 0);
    lemma_below_mul(291, 397858589122, 76, 291, 397858589122, 76, 158291456938, 12);
    lemma_below_mul(582, 158291456938, 164, 1, 2, 0, 316582913876, 0);
    lemma_below_mul(583, 316582913876, 164, 583, 316582913876, 164, 100224741358, 12);
    lemma_pow10_adds(340, 11);
    lemma_pow10_step(340);
    assert(pow10(11) * pow10(340) < 100224741358 * pow10(340)) by (nonlinear_arith)
        requires
            pow10(11) == 100_000_000_000,
            pow10(340) >= 1,
    ;
}

/// A power grows with its base.
proof fn lemma_pow_base_increases(x: int, y: int, e: nat)
    requires
        0 <= x <= y,
    ensures
        0 <= pow(x, e) <= pow(y, e),
        x < y && e >= 1 ==> pow(x, e) < pow(y, e),
    decreases e,
{
    reveal(pow);
    if e > 0 {
        lemma_pow_base_increases(x, y, (e - 1) as nat);
        let a = pow(x, (e - 1) as nat);
        let b = pow(y, (e - 1) as nat);
        assert(x * a <= y * b) by (nonlinear_arith)
            requires
                0 <= x <= y,
                0 <= a <= b,
        ;
        if x < y {
            lemma_pow_positive(y, (e - 1) as nat);
            assert(x * a < y * b) by (nonlinear_arith)
                requires
                    0 <= x < y,
                    0 <= a <= b,
                    b >= 1,
            ;
        }
    }
}

/// For positive `n`, `2^n <= 10^k` follows from `146 * n <= 485 * k`.
proof fn lemma_pow2_below_pow10(n: nat, k: nat)
    requires
        146 * n <= 485 * k,
    ensures
        pow2(n) <= pow10(k),
        n >= 1 ==> pow2(n) < pow10(k),
{
    lemma_pow2(n);
    lemma_pow2(485);
    lemma_pow_positive(10, k);
    lemma_pow_positive(10, 146);
    lemma_pow_positive(2, n);
    lemma_pow_positive(2, 485);
    lemma_log10_2_upper();
    if n >= 1 {
        assert_by_contradiction!(pow(2, n) < pow(10, k), {
            // 10^(485 k) <= 2^(485 n) < 10^(146 n) <= 10^(485 k)
            lemma_pow_base_increases(pow(10, k), pow(2, n), 485);
            lemma_pow_multiplies(10, k, 485);
            lemma_pow_multiplies(2, n, 485);
            lemma_pow_multiplies(2, 485, n);
            lemma_pow_multiplies(10, 146, n);
            assert(n * 485 == 485 * n);
            lemma_pow_base_increases(pow(2, 485), pow(10, 146), n);
            lemma_pow_increases(10, 146 * n, k * 485);
        });
    } else {
        lemma_pow0(2);
    }
}

/// `10^j <= 2^n` follows from `1166 * j <= 351 * n`.
proof fn lemma_pow10_below_pow2(j: nat, n: nat)
    requires
        1166 * j <= 351 * n,
    ensures
        pow10(j) <= pow2(n),
        n >= 1 ==> pow10(j) < pow2(n),
{
    lemma_pow2(n);
    lemma_pow2(1166);
    lemma_pow_positive(10, j);
    lemma_pow_positive(10, 351);
    lemma_pow_positive(2, n);
    lemma_pow_positive(2, 1166);
    lemma_log10_2_lower();
    if n >= 1 {
        assert_by_contradiction!(pow(10, j) < pow(2, n), {
            // 2^(1166 n) <= 10^(1166 j) <= 10^(351 n) < 2^(1166 n)
            lemma_pow_base_increases(pow(2, n), pow(10, j), 1166);
            lemma_pow_multiplies(10, j, 1166);
            lemma_pow_multiplies(2, n, 1166);
            lemma_pow_multiplies(2, 1166, n);
            lemma_pow_multiplies(10, 351, n);
            assert(n * 1166 == 1166 * n);
            lemma_pow_base_increases(pow(10, 351), pow(2, 1166), n);
            lemma_pow_increases(10, j * 1166, 351 * n);
        });
    } else {
        lemma_pow0(2);
        lemma_pow0(10);
    }
}

/// `ceil_log10_pow2(n)` is `n * log10(2)` rounded up: it is the integer `k`
/// with `10^(k - 1) < 2^n <= 10^k`. For a negative `n` that is to say
/// `10^-k <= 2^-n < 10^(1 - k)`.
pub proof fn lemma_ceil_log10_pow2(n: int)
    requires
        -1651 < n < 1651,
    ensures
        n >= 0 ==> ceil_log10_pow2(n) >= 0 && pow2(n as nat) <= pow10(ceil_log10_pow2(n) as nat),
        n > 0 ==> pow10((ceil_log10_pow2(n) - 1) as nat) < pow2(n as nat),
        n < 0 ==> ceil_log10_pow2(n) <= 0 && pow10((-ceil_log10_pow2(n)) as nat) <= pow2(
            (-n) as nat,
        ) < pow10((1 - ceil_log10_pow2(n)) as nat),
{
    let k = ceil_log10_pow2(n);
    if n >= 0 {
        lemma_pow2_below_pow10(n as nat, k as nat);
        if n > 0 {
            lemma_pow10_below_pow2((k - 1) as nat, n as nat);
        }
    } else {
        let a = (-n) as nat;
        let j = (-k) as nat;
        lemma_pow10_below_pow2(j, a);
        lemma_pow2_below_pow10(a, j + 1);
    }
}

} // verus!
