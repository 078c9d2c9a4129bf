//! What a text reads as: the decimal number that it stands for.

use crate::decimal::{
    all_digits, decimal_digits, lemma_decimal_digits_shape, lemma_pow10_step, pow10,
};
use crate::prettify::{
    exponent_text, is_positional, positional_text, prettify_text, scientific_text, zeros, EXP,
    MINUS, POINT, ZERO,
};
use vstd::prelude::*;

verus! {

/// The number that a run of digits stands for.
pub open spec fn digits_to_nat(s: Seq<u8>) -> nat
    decreases s.len(),
{
    if s.len() == 0 {
        0
    } else {
        10 * digits_to_nat(s.drop_last()) + (s.last() - ZERO) as nat
    }
}

/// The index of the first `byte` in `s`, or the length of `s` if there is
/// none.
pub open spec fn position_of(s: Seq<u8>, byte: u8) -> int
    decreases s.len(),
{
    if s.len() == 0 {
        0
    } else if s[0] == byte {
        0
    } else {
        1 + position_of(s.drop_first(), byte)
    }
}

/// The number that an exponent stands for: its digits, negated behind a
/// minus sign.
pub open spec fn read_exponent(s: Seq<u8>) -> int {
    if s.len() > 0 && s[0] == MINUS {
        -(digits_to_nat(s.drop_first()) as int)
    } else {
        digits_to_nat(s) as int
    }
}

/// The number that a text without a sign stands for, as a whole number `m`
/// and a decimal exponent `x`: the number is `m * 10^x`. The digits before
/// and behind the point make up `m`; `x` is the exponent behind the `e`, or
/// zero, less the number of digits behind the point.
pub open spec fn read_unsigned(body: Seq<u8>) -> (nat, int) {
    let e = position_of(body, EXP);
    let mantissa = body.subrange(0, e);
    let exponent = if e < body.len() {
        read_exponent(body.subrange(e + 1, body.len() as int))
    } else {
        0
    };
    let p = position_of(mantissa, POINT);
    let whole = mantissa.subrange(0, p);
    let fraction = if p < mantissa.len() {
        mantissa.subrange(p + 1, mantissa.len() as int)
    } else {
        Seq::<u8>::empty()
    };
    (digits_to_nat(whole + fraction), exponent - fraction.len())
}

/// Whether a text begins with a minus sign, and the number that the rest of
/// it stands for.
pub open spec fn read_text(text: Seq<u8>) -> (bool, nat, int) {
    if text.len() > 0 && text[0] == MINUS {
        let (m, x) = read_unsigned(text.drop_first());
        (true, m, x)
    } else {
        let (m, x) = read_unsigned(text);
        (false, m, x)
    }
}

/// A byte that stands at `at`, with no equal byte before it, is found there;
/// so is the end of a run without such a byte.
pub proof fn lemma_position_of(s: Seq<u8>, byte: u8, at: int)
    requires
        0 <= at <= s.len(),
        forall|i: int| 0 <= i < at ==> s[i] != byte,
        at < s.len() ==> s[at] == byte,
    ensures
        position_of(s, byte) == at,
    decreases s.len(),
{
    if s.len() > 0 && at > 0 {
        let t = s.drop_first();
        assert forall|i: int| 0 <= i < at - 1 implies t[i] != byte by {
            assert(t[i] == s[i + 1]);
        }
        lemma_position_of(t, byte, at - 1);
    }
}

/// The digits of a number stand for that number.
pub proof fn lemma_digits_to_nat(n: nat)
    ensures
        digits_to_nat(decimal_digits(n)) == n,
    decreases n,
{
    if n < 10 {
        let s = decimal_digits(n);
        assert(s.drop_last() =~= Seq::<u8>::empty());
        assert(digits_to_nat(s.drop_last()) == 0);
    } else {
        lemma_digits_to_nat(n / 10);
        let s = decimal_digits(n);
        assert(s.drop_last() =~= decimal_digits(n / 10));
    }
}

/// Digits behind digits: the first run counts for as many powers of ten as
/// the second run is long.
pub proof fn lemma_digits_to_nat_concat(a: Seq<u8>, b: Seq<u8>)
    ensures
        digits_to_nat(a + b) == digits_to_nat(a) * pow10(b.len()) + digits_to_nat(b),
    decreases b.len(),
{
    lemma_pow10_step(0);
    if b.len() == 0 {
        assert(a + b =~= a);
        assert(digits_to_nat(a) * 1 == digits_to_nat(a));
    } else {
        let c = b.drop_last();
        lemma_digits_to_nat_concat(a, c);
        assert((a + b).drop_last() =~= a + c);
        assert((a + b).last() == b.last());
        lemma_pow10_step(c.len());
        let x = digits_to_nat(a);
        let p = pow10(c.len());
        assert(10 * (x * p + digits_to_nat(c)) == x * (10 * p) + 10 * digits_to_nat(c))
            by (nonlinear_arith);
    }
}

/// Zeros stand for zero.
pub proof fn lemma_digits_to_nat_zeros(n: nat)
    ensures
        digits_to_nat(zeros(n)) == 0,
    decreases n,
{
    if n > 0 {
        lemma_digits_to_nat_zeros((n - 1) as nat);
        assert(zeros(n).drop_last() =~= zeros((n - 1) as nat));
    }
}

/// The text of an exponent stands for that exponent.
pub proof fn lemma_read_exponent(e: int)
    ensures
        read_exponent(exponent_text(e)) == e,
{
    if e < 0 {
        let rest = decimal_digits((-e) as nat);
        assert(exponent_text(e).drop_first() =~= rest);
        lemma_digits_to_nat((-e) as nat);
    } else {
        lemma_decimal_digits_shape(e as nat);
        lemma_digits_to_nat(e as nat);
        assert(48 <= decimal_digits(e as nat)[0] <= 57);
    }
}

/// The text of the number `digits * 10^k` stands for that number. It reads
/// as the number that the digits stand for and the exponent `k`, but for a
/// whole number written without an exponent, which reads as its digits, the
/// zeros that fill it up and the zero behind the point, with the exponent
/// `-1`.
pub proof fn lemma_read_prettify(digits: Seq<u8>, k: int)
    requires
        digits.len() >= 1,
        all_digits(digits),
    ensures
        !read_text(prettify_text(digits, k)).0,
        is_positional(digits.len() + k) && k >= 0 ==> read_text(prettify_text(digits, k)).1
            == digits_to_nat(digits) * pow10((k + 1) as nat) && read_text(
            prettify_text(digits, k),
        ).2 == -1,
        !(is_positional(digits.len() + k) && k >= 0) ==> read_text(prettify_text(digits, k)).1
            == digits_to_nat(digits) && read_text(prettify_text(digits, k)).2 == k,
{
    let len = digits.len() as int;
    let kk = len + k;
    let text = prettify_text(digits, k);
    assert(48 <= digits[0] <= 57);
    if is_positional(kk) {
        assert(text == positional_text(digits, k));
        if k >= 0 {
            lemma_read_whole(digits, k as nat);
        } else if kk > 0 {
            lemma_read_inside(digits, kk);
        } else {
            lemma_read_small(digits, (-kk) as nat);
        }
    } else {
        assert(text == scientific_text(digits, k));
        lemma_read_scientific(digits, k);
    }
}

/// Reading a whole number: `digits`, `k` zeros, `.0`.
proof fn lemma_read_whole(digits: Seq<u8>, k: nat)
    requires
        digits.len() >= 1,
        all_digits(digits),
    ensures
        read_text(digits + zeros(k) + seq![POINT, ZERO]) == (
            false,
            digits_to_nat(digits) * pow10(k + 1),
            -1int,
        ),
{
    let len = digits.len() as int;
    let text = digits + zeros(k) + seq![POINT, ZERO];
    let front = digits + zeros(k);
    assert(48 <= digits[0] <= 57);
    assert(text[0] == digits[0]);
    assert forall|i: int| 0 <= i < text.len() implies text[i] != EXP by {
        if i < len {
            assert(text[i] == digits[i]);
        }
    }
    lemma_position_of(text, EXP, text.len() as int);
    let mantissa = text.subrange(0, text.len() as int);
    assert(mantissa =~= text);
    assert forall|i: int| 0 <= i < len + k implies text[i] != POINT by {
        if i < len {
            assert(text[i] == digits[i]);
        }
    }
    lemma_position_of(text, POINT, len + k);
    assert(text.subrange(0, len + k) =~= front);
    assert(text.subrange(len + k + 1, text.len() as int) =~= seq![ZERO]);
    let tail = zeros(k) + seq![ZERO];
    assert(front + seq![ZERO] =~= digits + tail);
    assert(tail =~= zeros(k + 1));
    lemma_digits_to_nat_concat(digits, tail);
    lemma_digits_to_nat_zeros(k + 1);
}

/// Reading a number with the point behind its first `kk` digits.
proof fn lemma_read_inside(digits: Seq<u8>, kk: int)
    requires
        0 < kk < digits.len(),
        all_digits(digits),
    ensures
        read_text(
            digits.subrange(0, kk) + seq![POINT] + digits.subrange(kk, digits.len() as int),
        ) == (false, digits_to_nat(digits), kk - digits.len()),
{
    let len = digits.len() as int;
    let text = digits.subrange(0, kk) + seq![POINT] + digits.subrange(kk, len);
    assert(48 <= digits[0] <= 57);
    assert(text[0] == digits[0]);
    assert forall|i: int| 0 <= i < text.len() implies text[i] != EXP by {
        if i < kk {
            assert(text[i] == digits[i]);
        } else if i > kk {
            assert(text[i] == digits[i - 1]);
        }
    }
    lemma_position_of(text, EXP, text.len() as int);
    assert(text.subrange(0, text.len() as int) =~= text);
    assert forall|i: int| 0 <= i < kk implies text[i] != POINT by {
        assert(text[i] == digits[i]);
    }
    lemma_position_of(text, POINT, kk);
    assert(text.subrange(0, kk) =~= digits.subrange(0, kk));
    assert(text.subrange(kk + 1, text.len() as int) =~= digits.subrange(kk, len));
    assert(digits.subrange(0, kk) + digits.subrange(kk, len) =~= digits);
}

/// Reading a number below one: `0.`, `n` zeros, `digits`.
proof fn lemma_read_small(digits: Seq<u8>, n: nat)
    requires
        digits.len() >= 1,
        all_digits(digits),
    ensures
        read_text(seq![ZERO, POINT] + zeros(n) + digits) == (
            false,
            digits_to_nat(digits),
            -(n + digits.len()),
        ),
{
    let text = seq![ZERO, POINT] + zeros(n) + digits;
    assert(text[0] == ZERO);
    assert forall|i: int| 0 <= i < text.len() implies text[i] != EXP by {
        if i >= 2 + n {
            assert(text[i] == digits[i - 2 - n]);
        }
    }
    lemma_position_of(text, EXP, text.len() as int);
    assert(text.subrange(0, text.len() as int) =~= text);
    lemma_position_of(text, POINT, 1);
    let whole = text.subrange(0, 1);
    let fraction = text.subrange(2, text.len() as int);
    assert(whole =~= zeros(1));
    assert(fraction =~= zeros(n) + digits);
    assert(whole + fraction =~= zeros(n + 1) + digits);
    lemma_digits_to_nat_concat(zeros(n + 1), digits);
    lemma_digits_to_nat_zeros(n + 1);
    assert(0 * pow10(digits.len()) == 0);
}

/// Reading a number with an exponent.
proof fn lemma_read_scientific(digits: Seq<u8>, k: int)
    requires
        digits.len() >= 1,
        all_digits(digits),
    ensures
        read_text(scientific_text(digits, k)) == (false, digits_to_nat(digits), k),
{
    let len = digits.len() as int;
    let kk = len + k;
    let text = scientific_text(digits, k);
    let tail = exponent_text(kk - 1);
    lemma_read_exponent(kk - 1);
    assert(48 <= digits[0] <= 57);
    assert(text[0] == digits[0]);
    if len == 1 {
        lemma_position_of(text, EXP, 1);
        let mantissa = text.subrange(0, 1);
        assert(mantissa =~= digits);
        assert(text.subrange(2, text.len() as int) =~= tail);
        lemma_position_of(mantissa, POINT, 1);
        assert(mantissa.subrange(0, 1) + Seq::<u8>::empty() =~= digits);
    } else {
        assert forall|i: int| 0 <= i < len + 1 implies text[i] != EXP by {
            if i < 1 {
                assert(text[i] == digits[i]);
            } else if i > 1 {
                assert(text[i] == digits[i - 1]);
            }
        }
        assert(text[len + 1] == EXP);
        lemma_position_of(text, EXP, len + 1);
        let mantissa = text.subrange(0, len + 1);
        assert(mantissa =~= digits.subrange(0, 1) + seq![POINT] + digits.subrange(1, len));
        assert(text.subrange(len + 2, text.len() as int) =~= tail);
        lemma_position_of(mantissa, POINT, 1);
        assert(mantissa.subrange(0, 1) =~= digits.subrange(0, 1));
        assert(mantissa.subrange(2, len + 1) =~= digits.subrange(1, len));
        assert(digits.subrange(0, 1) + digits.subrange(1, len) =~= digits);
    }
}

} // verus!
