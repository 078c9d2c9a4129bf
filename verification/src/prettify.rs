//! The textual form of a decimal number given by its digits and the weight
//! of its last digit.

use crate::decimal::{
    all_digits, decimal_digits, lemma_decimal_digits_len, lemma_decimal_digits_shape,
    lemma_pow10_values,
};
use vstd::prelude::*;

verus! {

/// ASCII `-`.
pub const MINUS: u8 = 45;

/// ASCII `.`.
pub const POINT: u8 = 46;

/// ASCII `0`.
pub const ZERO: u8 = 48;

/// ASCII `e`.
pub const EXP: u8 = 101;

/// `n` zero digits.
pub open spec fn zeros(n: nat) -> Seq<u8> {
    Seq::new(n, |i: int| ZERO)
}

/// The exponent `e` in decimal: a minus sign if it is negative, then its
/// digits without leading zeros.
pub open spec fn exponent_text(e: int) -> Seq<u8> {
    if e < 0 {
        seq![MINUS] + decimal_digits((-e) as nat)
    } else {
        decimal_digits(e as nat)
    }
}

/// Whether `byte` is one of the bytes that a text is made of: a digit, the
/// point, `e` or the minus sign.
pub open spec fn is_text_byte(byte: u8) -> bool {
    48 <= byte <= 57 || byte == POINT || byte == EXP || byte == MINUS
}

/// Whether a number whose first digit has the weight `10^(kk - 1)` is
/// written without an exponent.
pub open spec fn is_positional(kk: int) -> bool {
    -6 < kk <= 21
}

/// The text without an exponent of the number `digits * 10^k`, for
/// `-6 < kk <= 21` with `kk = digits.len() + k`.
///
/// - `0 < kk`: the digits with the point behind the first `kk` of them; a
///   whole number is filled up with zeros and ends in `.0`.
/// - `kk <= 0`: `0.`, then `-kk` zeros, then the digits.
pub open spec fn positional_text(digits: Seq<u8>, k: int) -> Seq<u8> {
    let len = digits.len() as int;
    let kk = len + k;
    if 0 <= k {
        digits + zeros(k as nat) + seq![POINT, ZERO]
    } else if 0 < kk {
        digits.subrange(0, kk) + seq![POINT] + digits.subrange(kk, len)
    } else {
        seq![ZERO, POINT] + zeros((-kk) as nat) + digits
    }
}

/// The text with an exponent of the number `digits * 10^k`: the first
/// digit, the point and the other digits if there are any, `e`, and the
/// exponent `kk - 1` with `kk = digits.len() + k`.
pub open spec fn scientific_text(digits: Seq<u8>, k: int) -> Seq<u8> {
    let len = digits.len() as int;
    let kk = len + k;
    if len == 1 {
        digits + seq![EXP] + exponent_text(kk - 1)
    } else {
        digits.subrange(0, 1) + seq![POINT] + digits.subrange(1, len) + seq![EXP] + exponent_text(
            kk - 1,
        )
    }
}

/// The text of the number `digits * 10^k`. With `kk = digits.len() + k` the
/// number is `0.digits * 10^kk`; it is written without an exponent if
/// `-6 < kk <= 21`, and with one otherwise.
pub open spec fn prettify_text(digits: Seq<u8>, k: int) -> Seq<u8> {
    if is_positional(digits.len() + k) {
        positional_text(digits, k)
    } else {
        scientific_text(digits, k)
    }
}

/// The length of `prettify_text(digits, k)`.
pub open spec fn prettify_len(len: int, k: int) -> int {
    let kk = len + k;
    if is_positional(kk) {
        if 0 <= k {
            kk + 2
        } else if 0 < kk {
            len + 1
        } else {
            2 - kk + len
        }
    } else {
        len + (if len == 1 {
            0int
        } else {
            1int
        }) + 1 + exponent_text(kk - 1).len()
    }
}

/// Appends the decimal digits of `n`.
pub fn write_decimal(n: u64, out: &mut Vec<u8>)
    ensures
        final(out)@ == old(out)@ + decimal_digits(n as nat),
    decreases n,
{
    if n >= 10 {
        write_decimal(n / 10, out);
    }
    out.push(ZERO + (n % 10) as u8);
    proof {
        if n >= 10 {
            assert(final(out)@ =~= old(out)@ + decimal_digits(n as nat));
        } else {
            assert(final(out)@ =~= old(out)@ + decimal_digits(n as nat));
        }
    }
}

/// Appends the exponent `k`: its sign if it is negative, then its digits.
pub fn write_exponent(k: isize, out: &mut Vec<u8>)
    ensures
        final(out)@ == old(out)@ + exponent_text(k as int),
{
    if k < 0 {
        out.push(MINUS);
        let magnitude: u64 = (-(k as i128)) as u64;
        write_decimal(magnitude, out);
        proof {
            assert(final(out)@ =~= old(out)@ + exponent_text(k as int));
        }
    } else {
        write_decimal(k as u64, out);
    }
}

/// Appends `n` zero digits.
pub fn write_zeros(n: usize, out: &mut Vec<u8>)
    ensures
        final(out)@ == old(out)@ + zeros(n as nat),
{
    let mut i: usize = 0;
    while i < n
        invariant
            i <= n,
            out@ =~= old(out)@ + zeros(i as nat),
        decreases n - i,
    {
        out.push(ZERO);
        i = i + 1;
    }
}

/// Appends the bytes of `digits` from index `from` up to index `to`.
pub fn write_range(digits: &Vec<u8>, from: usize, to: usize, out: &mut Vec<u8>)
    requires
        from <= to <= digits@.len(),
    ensures
        final(out)@ == old(out)@ + digits@.subrange(from as int, to as int),
{
    let mut i: usize = from;
    while i < to
        invariant
            from <= i <= to <= digits@.len(),
            out@ =~= old(out)@ + digits@.subrange(from as int, i as int),
        decreases to - i,
    {
        out.push(digits[i]);
        i = i + 1;
    }
}

/// Appends the text of the number `digits * 10^k`.
pub fn prettify(digits: &Vec<u8>, k: isize, out: &mut Vec<u8>)
    requires
        1 <= digits@.len() <= isize::MAX,
        isize::MIN < digits@.len() + k <= isize::MAX,
    ensures
        final(out)@ == old(out)@ + prettify_text(digits@, k as int),
{
    let length: usize = digits.len();
    let kk: isize = length as isize + k;
    let ghost text = prettify_text(digits@, k as int);
    if 0 <= k && kk <= 21 {
        write_range(digits, 0, length, out);
        write_zeros(k as usize, out);
        out.push(POINT);
        out.push(ZERO);
        proof {
            assert(digits@.subrange(0, length as int) =~= digits@);
            assert(out@ =~= old(out)@ + text);
        }
    } else if 0 < kk && kk <= 21 {
        write_range(digits, 0, kk as usize, out);
        out.push(POINT);
        write_range(digits, kk as usize, length, out);
        proof {
            assert(out@ =~= old(out)@ + text);
        }
    } else if -6 < kk && kk <= 0 {
        out.push(ZERO);
        out.push(POINT);
        write_zeros((-kk) as usize, out);
        write_range(digits, 0, length, out);
        proof {
            assert(digits@.subrange(0, length as int) =~= digits@);
            assert(out@ =~= old(out)@ + text);
        }
    } else if length == 1 {
        out.push(digits[0]);
        out.push(EXP);
        write_exponent(kk - 1, out);
        proof {
            assert(out@ =~= old(out)@ + text);
        }
    } else {
        out.push(digits[0]);
        out.push(POINT);
        write_range(digits, 1, length, out);
        out.push(EXP);
        write_exponent(kk - 1, out);
        proof {
            assert(out@ =~= old(out)@ + text);
        }
    }
}

/// An exponent below a thousand in size takes at most three digits and a
/// sign.
pub proof fn lemma_exponent_text_len(e: int)
    requires
        -1000 < e < 1000,
    ensures
        1 <= exponent_text(e).len() <= 4,
        e >= 0 ==> exponent_text(e).len() <= 3,
        -100 < e < 0 ==> exponent_text(e).len() <= 3,
        0 <= e < 100 ==> exponent_text(e).len() <= 2,
{
    lemma_pow10_values();
    let n: nat = if e < 0 {
        (-e) as nat
    } else {
        e as nat
    };
    if n < 10 {
        lemma_decimal_digits_len(n, 1);
    } else if n < 100 {
        lemma_decimal_digits_len(n, 2);
    } else {
        lemma_decimal_digits_len(n, 3);
    }
}

/// The text of a number has the length `prettify_len`.
pub proof fn lemma_prettify_len(digits: Seq<u8>, k: int)
    requires
        digits.len() >= 1,
    ensures
        prettify_text(digits, k).len() == prettify_len(digits.len() as int, k),
{
}

/// The first byte of the text of a number is a digit.
pub proof fn lemma_prettify_first(digits: Seq<u8>, k: int)
    requires
        digits.len() >= 1,
        all_digits(digits),
    ensures
        prettify_text(digits, k).len() >= 1,
        48 <= prettify_text(digits, k)[0] <= 57,
{
    lemma_prettify_len(digits, k);
    assert(48 <= digits[0] <= 57);
}

/// The text of a number is made of digits, the point, `e` and the minus
/// sign alone.
pub proof fn lemma_prettify_bytes(digits: Seq<u8>, k: int)
    requires
        digits.len() >= 1,
        all_digits(digits),
    ensures
        forall|i: int|
            0 <= i < prettify_text(digits, k).len() ==> is_text_byte(
                #[trigger] prettify_text(digits, k)[i],
            ),
{
    let len = digits.len() as int;
    let kk = len + k;
    let text = prettify_text(digits, k);
    let tail = exponent_text(kk - 1);
    let size: nat = if kk - 1 < 0 {
        (1 - kk) as nat
    } else {
        (kk - 1) as nat
    };
    lemma_decimal_digits_shape(size);
    assert forall|j: int| 0 <= j < tail.len() implies is_text_byte(#[trigger] tail[j]) by {
        if kk - 1 < 0 && j > 0 {
            assert(tail[j] == decimal_digits(size)[j - 1]);
        }
    }
    assert forall|i: int| 0 <= i < text.len() implies is_text_byte(#[trigger] text[i]) by {
        if is_positional(kk) {
            if 0 <= k {
                if i < len {
                    assert(text[i] == digits[i]);
                }
            } else if 0 < kk {
                if i < kk {
                    assert(text[i] == digits[i]);
                } else if i > kk {
                    assert(text[i] == digits[i - 1]);
                }
            } else {
                if i >= 2 - kk {
                    assert(text[i] == digits[i - (2 - kk)]);
                }
            }
        } else if len == 1 {
            if i < 1 {
                assert(text[i] == digits[i]);
            } else if i > 1 {
                assert(text[i] == tail[i - 2]);
            }
        } else {
            if i < 1 {
                assert(text[i] == digits[i]);
            } else if 1 < i <= len {
                assert(text[i] == digits[i - 1]);
            } else if i > len + 1 {
                assert(text[i] == tail[i - len - 2]);
            }
        }
    }
}

/// An `e` stands in the text of a number if and only if the number is not
/// of moderate size: with the first digit's weight `10^(kk - 1)`, if and
/// only if `kk <= -6` or `21 < kk`.
pub proof fn lemma_prettify_form(digits: Seq<u8>, k: int)
    requires
        digits.len() >= 1,
        all_digits(digits),
    ensures
        prettify_text(digits, k).contains(EXP) <==> !is_positional(digits.len() + k),
{
    let len = digits.len() as int;
    let kk = len + k;
    let text = prettify_text(digits, k);
    if is_positional(kk) {
        assert forall|i: int| 0 <= i < text.len() implies text[i] != EXP by {
            if 0 <= k {
                if i < len {
                    assert(text[i] == digits[i]);
                }
            } else if 0 < kk {
                if i < kk {
                    assert(text[i] == digits[i]);
                } else if i > kk {
                    assert(text[i] == digits[i - 1]);
                }
            } else {
                if i >= 2 - kk {
                    assert(text[i] == digits[i - (2 - kk)]);
                }
            }
        }
    } else {
        if len == 1 {
            assert(text[1] == EXP);
        } else {
            assert(text[len + 1] == EXP);
        }
    }
}

/// A whole number of moderate size is written with all its digits before
/// the point and ends in `.0`.
pub proof fn lemma_prettify_whole(digits: Seq<u8>, k: int)
    requires
        digits.len() >= 1,
        0 <= k,
        digits.len() + k <= 21,
    ensures
        prettify_text(digits, k) == digits + zeros(k as nat) + seq![POINT, ZERO],
{
}

} // verus!
