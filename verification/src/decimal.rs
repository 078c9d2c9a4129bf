//! Powers of ten and the decimal digits of natural numbers.

use vstd::arithmetic::power::*;
use vstd::prelude::*;

verus! {

/// `10^n`.
pub open spec fn pow10(n: nat) -> nat {
    pow(10, n) as nat
}

/// The ASCII decimal digits of `n`, most significant first, without a leading
/// zero (the number zero is the single digit `0`).
pub open spec fn decimal_digits(n: nat) -> Seq<u8>
    decreases n,
{
    if n < 10 {
        seq![(48 + n) as u8]
    } else {
        decimal_digits(n / 10).push((48 + n % 10) as u8)
    }
}

/// Whether every byte of `s` is an ASCII decimal digit.
pub open spec fn all_digits(s: Seq<u8>) -> bool {
    forall|i: int| 0 <= i < s.len() ==> 48 <= #[trigger] s[i] <= 57
}

const POW10: [u64; 20] = [
    1,
    10,
    100,
    1_000,
    10_000,
    100_000,
    1_000_000,
    10_000_000,
    100_000_000,
    1_000_000_000,
    10_000_000_000,
    100_000_000_000,
    1_000_000_000_000,
    10_000_000_000_000,
    100_000_000_000_000,
    1_000_000_000_000_000,
    10_000_000_000_000_000,
    100_000_000_000_000_000,
    1_000_000_000_000_000_000,
    10_000_000_000_000_000_000,
];

/// `10^n` for the powers that fit in 64 bits.
pub fn pow10_u64(n: usize) -> (r: u64)
    requires
        n <= 19,
    ensures
        r == pow10(n as nat),
{
    proof {
        lemma_pow10_values();
    }
    POW10[n]
}

/// The number of decimal digits of `n`.
pub fn count_decimal_digit32(n: u32) -> (r: usize)
    ensures
        r == decimal_digits(n as nat).len(),
        1 <= r <= 10,
        pow10((r - 1) as nat) <= n || n == 0,
        n < pow10(r as nat),
{
    proof {
        lemma_pow10_values();
    }
    let r: usize = if n < 10 {
        1
    } else if n < 100 {
        2
    } else if n < 1_000 {
        3
    } else if n < 10_000 {
        4
    } else if n < 100_000 {
        5
    } else if n < 1_000_000 {
        6
    } else if n < 10_000_000 {
        7
    } else if n < 100_000_000 {
        8
    } else if n < 1_000_000_000 {
        9
    } else {
        10
    };
    proof {
        lemma_decimal_digits_len(n as nat, r as nat);
    }
    r
}

/// The next power of ten is ten times as large.
pub proof fn lemma_pow10_step(n: nat)
    ensures
        pow10(0) == 1,
        pow10(n + 1) == 10 * pow10(n),
        pow10(n) >= 1,
{
    reveal(pow);
    lemma_pow_positive(10, n);
    assert(pow(10, (n + 1) as nat) == 10 * pow(10, n));
}

/// Powers of ten multiply as their exponents add.
pub proof fn lemma_pow10_adds(a: nat, b: nat)
    ensures
        pow10(a + b) == pow10(a) * pow10(b),
{
    lemma_pow_adds(10, a, b);
    lemma_pow_positive(10, a);
    lemma_pow_positive(10, b);
    lemma_pow_positive(10, a + b);
}

/// Powers of ten grow with their exponents.
pub proof fn lemma_pow10_increases(a: nat, b: nat)
    requires
        a <= b,
    ensures
        pow10(a) <= pow10(b),
{
    lemma_pow_increases(10, a, b);
    lemma_pow_positive(10, a);
    lemma_pow_positive(10, b);
}

/// The powers of ten that fit in 64 bits.
pub proof fn lemma_pow10_values()
    ensures
        pow10(0) == 1,
        pow10(1) == 10,
        pow10(2) == 100,
        pow10(3) == 1_000,
        pow10(4) == 10_000,
        pow10(5) == 100_000,
        pow10(6) == 1_000_000,
        pow10(7) == 10_000_000,
        pow10(8) == 100_000_000,
        pow10(9) == 1_000_000_000,
        pow10(10) == 10_000_000_000,
        pow10(11) == 100_000_000_000,
        pow10(12) == 1_000_000_000_000,
        pow10(13) == 10_000_000_000_000,
        pow10(14) == 100_000_000_000_000,
        pow10(15) == 1_000_000_000_000_000,
        pow10(16) == 10_000_000_000_000_000,
        pow10(17) == 100_000_000_000_000_000,
        pow10(18) == 1_000_000_000_000_000_000,
        pow10(19) == 10_000_000_000_000_000_000,
{
    lemma_pow10_step(0);
    lemma_pow10_step(1);
    lemma_pow10_step(2);
    lemma_pow10_step(3);
    lemma_pow10_step(4);
    lemma_pow10_step(5);
    lemma_pow10_step(6);
    lemma_pow10_step(7);
    lemma_pow10_step(8);
    lemma_pow10_step(9);
    lemma_pow10_step(10);
    lemma_pow10_step(11);
    lemma_pow10_step(12);
    lemma_pow10_step(13);
    lemma_pow10_step(14);
    lemma_pow10_step(15);
    lemma_pow10_step(16);
    lemma_pow10_step(17);
    lemma_pow10_step(18);
}

/// A number of `d` digits has `d` digits.
pub proof fn lemma_decimal_digits_len(n: nat, d: nat)
    requires
        d >= 1,
        n < pow10(d),
        d > 1 ==> pow10((d - 1) as nat) <= n,
    ensures
        decimal_digits(n).len() == d,
    decreases d,
{
    lemma_pow10_values();
    if d == 1 {
    } else {
        let e = (d - 1) as nat;
        lemma_pow10_step(e);
        lemma_pow10_increases(1, e);
        assert(n >= 10);
        if e > 1 {
            lemma_pow10_step((e - 1) as nat);
        }
        lemma_decimal_digits_len(n / 10, e);
    }
}

/// A positive number is at least the power of ten that its number of digits
/// stands for, and below the next one.
pub proof fn lemma_decimal_digits_bounds(n: nat)
    ensures
        n >= 1 ==> pow10((decimal_digits(n).len() - 1) as nat) <= n,
        n < pow10(decimal_digits(n).len()),
    decreases n,
{
    lemma_pow10_values();
    if n >= 10 {
        lemma_decimal_digits_bounds(n / 10);
        let d = decimal_digits(n / 10).len();
        lemma_pow10_step(d);
        lemma_pow10_step((d - 1) as nat);
    }
}

/// Every byte of `decimal_digits(n)` is a digit, there is at least one, and
/// the first is not `0` unless `n` is zero.
pub proof fn lemma_decimal_digits_shape(n: nat)
    ensures
        decimal_digits(n).len() >= 1,
        all_digits(decimal_digits(n)),
        n >= 1 ==> decimal_digits(n)[0] != 48,
        decimal_digits(n).last() == 48 + n % 10,
    decreases n,
{
    if n >= 10 {
        lemma_decimal_digits_shape(n / 10);
    }
}

/// Appending a digit to the digits of `q` gives the digits of `10 * q + d`.
pub proof fn lemma_decimal_digits_push(q: nat, d: nat)
    requires
        q >= 1,
        d < 10,
    ensures
        decimal_digits(10 * q + d) == decimal_digits(q).push((48 + d) as u8),
{
    assert((10 * q + d) / 10 == q);
    assert((10 * q + d) % 10 == d);
}

/// Lowering a number by no more than its last digit lowers just that digit.
pub proof fn lemma_decimal_digits_lower_last(q: nat, n: nat)
    requires
        n <= q % 10,
    ensures
        decimal_digits((q - n) as nat) == decimal_digits(q).update(
            decimal_digits(q).len() - 1,
            (decimal_digits(q).last() - n) as u8,
        ),
{
    lemma_decimal_digits_shape(q);
    let r = (q - n) as nat;
    if q < 10 {
        assert(decimal_digits(r) =~= decimal_digits(q).update(0, (48 + q - n) as u8));
    } else {
        assert(r / 10 == q / 10);
        assert(r % 10 == q % 10 - n);
        assert(decimal_digits(r) =~= decimal_digits(q).update(
            decimal_digits(q).len() - 1,
            (decimal_digits(q).last() - n) as u8,
        ));
    }
}

} // verus!
