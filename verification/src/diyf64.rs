//! Extended-precision floating point with a 64-bit significand, used for
//! double-precision values, and the powers of ten cached in that form.

use crate::binary::{
    lemma_pow2_double, lemma_pow2_increases, lemma_shift_below_odd, lemma_shift_to_top,
    lemma_shift_to_top_unique, shift_to_top,
};
use crate::cached_power::{
    cached_decimal_exponent, cached_index, power_index, CACHED_POWERS, MAX_DISTANCE, MIN_DISTANCE,
};
use vstd::arithmetic::power2::*;
use vstd::bits::*;
use vstd::prelude::*;

verus! {

/// The width of the significand of a `DiyFp`.
pub const DIY_SIGNIFICAND_SIZE: isize = 64;

/// The width of the significand field of a double-precision value.
pub const DP_SIGNIFICAND_SIZE: isize = 52;

/// The exponent bias of a double-precision value whose significand is read
/// as a whole number.
pub const DP_EXPONENT_BIAS: isize = 0x3FF + DP_SIGNIFICAND_SIZE;

/// The exponent below that of every value.
pub const DP_MIN_EXPONENT: isize = -DP_EXPONENT_BIAS;

/// The exponent field of a double-precision bit pattern.
pub const DP_EXPONENT_MASK: u64 = 0x7ff0000000000000;

/// The significand field of a double-precision bit pattern.
pub const DP_SIGNIFICAND_MASK: u64 = 0x000fffffffffffff;

/// The bit of a significand that the bit pattern of a normal value leaves
/// out.
pub const DP_HIDDEN_BIT: u64 = 0x0010000000000000;

/// The highest bit of the significand of a `DiyFp`.
pub const TOP_BIT: u64 = 0x8000000000000000;

/// The lower end of the window of binary exponents that scaling by a cached
/// power leads into, less one.
pub const ALPHA: isize = -61;

/// The number `f * 2^e`.
#[derive(Copy, Clone, Debug)]
pub struct DiyFp {
    pub f: u64,
    pub e: isize,
}

impl DiyFp {
    /// The magnitude that the bit pattern `bits` encodes: for a normal value
    /// the hidden bit is added to the significand field, a subnormal value
    /// has the exponent of the smallest normal one.
    pub open spec fn spec_from_bits(bits: u64) -> DiyFp {
        let biased_e = (bits / DP_HIDDEN_BIT) % 0x800;
        let significand = bits % DP_HIDDEN_BIT;
        if biased_e != 0 {
            DiyFp {
                f: (significand + DP_HIDDEN_BIT) as u64,
                e: (biased_e - DP_EXPONENT_BIAS) as isize,
            }
        } else {
            DiyFp { f: significand as u64, e: (DP_MIN_EXPONENT + 1) as isize }
        }
    }

    /// The same number with the highest bit of the significand set.
    pub open spec fn spec_normalize(self) -> DiyFp {
        let s = shift_to_top(self.f as nat, 63);
        DiyFp { f: (self.f * pow2(s)) as u64, e: (self.e - s) as isize }
    }

    /// The halfway points between `self` and its lower and upper neighbours
    /// among the double-precision values, lower one first, both normalized to
    /// the exponent of the upper one. Below a power of two the values lie
    /// twice as close as above it.
    pub open spec fn spec_normalized_boundaries(self) -> (DiyFp, DiyFp) {
        let pl = (DiyFp { f: (2 * self.f + 1) as u64, e: (self.e - 1) as isize }).spec_normalize();
        let mi_f = if self.f == DP_HIDDEN_BIT {
            4 * self.f - 1
        } else {
            2 * self.f - 1
        };
        let mi_e = if self.f == DP_HIDDEN_BIT {
            self.e - 2
        } else {
            self.e - 1
        };
        (DiyFp { f: (mi_f * pow2((mi_e - pl.e) as nat)) as u64, e: pl.e }, pl)
    }

    /// The product `self * rhs`, rounded to 64 bits, a tie upwards.
    pub open spec fn spec_mul(self, rhs: DiyFp) -> DiyFp {
        DiyFp {
            f: ((self.f * rhs.f + 0x8000000000000000) / 0x10000000000000000) as u64,
            e: (self.e + rhs.e + 64) as isize,
        }
    }

    pub fn new(f: u64, e: isize) -> (r: DiyFp)
        ensures
            r.f == f,
            r.e == e,
    {
        DiyFp { f, e }
    }

    /// Takes the magnitude of a double-precision value apart. The sign bit is
    /// not looked at.
    pub fn from_bits(bits: u64) -> (r: DiyFp)
        ensures
            r == DiyFp::spec_from_bits(bits),
            r.f < 2 * DP_HIDDEN_BIT,
            DP_MIN_EXPONENT < r.e <= 972,
    {
        let biased_e: isize = ((bits & DP_EXPONENT_MASK) >> (52 as u64)) as isize;
        let significand: u64 = bits & DP_SIGNIFICAND_MASK;
        assert((bits & 0x7ff0000000000000u64) >> 52u64 == (bits / 0x0010000000000000u64) % 0x800u64)
            by (bit_vector);
        assert(bits & 0x000fffffffffffffu64 == bits % 0x0010000000000000u64) by (bit_vector);
        if biased_e != 0 {
            DiyFp { f: significand + DP_HIDDEN_BIT, e: biased_e - DP_EXPONENT_BIAS }
        } else {
            DiyFp { f: significand, e: DP_MIN_EXPONENT + 1 }
        }
    }

    /// Shifts the significand up until its highest bit is set.
    pub fn normalize(self) -> (r: DiyFp)
        requires
            self.f != 0,
            self.e - 63 >= isize::MIN,
        ensures
            r == self.spec_normalize(),
            r.f >= TOP_BIT,
            self.e - 63 <= r.e <= self.e,
            r.f == self.f * pow2((self.e - r.e) as nat),
    {
        let mut res = self;
        let ghost n: nat = 0;
        proof {
            lemma2_to64();
            lemma2_to64_rest();
            lemma_shift_to_top(self.f as nat, 63);
        }
        while (res.f & TOP_BIT) == 0
            invariant
                self.f != 0,
                self.e - 63 >= isize::MIN,
                res.f != 0,
                res.f == self.f * pow2(n),
                res.e == self.e - n,
                shift_to_top(self.f as nat, 63) == n + shift_to_top(res.f as nat, 63),
                n <= shift_to_top(self.f as nat, 63) <= 63,
                pow2(63) == 0x8000000000000000,
            decreases 0x10000000000000000 - res.f,
        {
            let f = res.f;
            assert(f & 0x8000000000000000u64 == 0 ==> f < 0x8000000000000000u64 && f << 1u64
                == 2 * f) by (bit_vector);
            proof {
                assert(shift_to_top(f as nat, 63) == 1 + shift_to_top(2 * f as nat, 63));
                lemma_pow2_double(n);
                assert(self.f * pow2(n + 1) == 2 * (self.f * pow2(n))) by (nonlinear_arith)
                    requires
                        pow2(n + 1) == 2 * pow2(n),
                ;
                n = n + 1;
            }
            res = DiyFp { f: res.f << 1, e: res.e - 1 };
        }
        proof {
            let f = res.f;
            assert(f & 0x8000000000000000u64 != 0 ==> f >= 0x8000000000000000u64) by (bit_vector);
        }
        res
    }

    /// Shifts the significand, which is below `2^54`, up until the bit
    /// above the hidden bit is set, and then up to the top.
    pub fn normalize_boundary(self) -> (r: DiyFp)
        requires
            0 < self.f < 4 * DP_HIDDEN_BIT,
            self.e - 63 >= isize::MIN,
        ensures
            r == self.spec_normalize(),
            r.f >= TOP_BIT,
            self.e - 63 <= r.e <= self.e - 10,
            r.f == self.f * pow2((self.e - r.e) as nat),
    {
        let mut res = self;
        let ghost n: nat = 0;
        proof {
            lemma2_to64();
            lemma2_to64_rest();
        }
        while (res.f & (DP_HIDDEN_BIT << 1)) == 0
            invariant
                0 < self.f,
                self.e - 63 >= isize::MIN,
                0 < res.f < 4 * DP_HIDDEN_BIT,
                res.f == self.f * pow2(n),
                res.e == self.e - n,
                n <= 53,
                pow2(53) == 0x0020000000000000,
            decreases 4 * DP_HIDDEN_BIT - res.f,
        {
            let f = res.f;
            assert(f < 0x0040000000000000u64 && f & (0x0010000000000000u64 << 1u64) == 0 ==> f
                < 0x0020000000000000u64 && f << 1u64 == 2 * f) by (bit_vector);
            proof {
                lemma_pow2_double(n);
                assert(self.f * pow2(n + 1) == 2 * (self.f * pow2(n))) by (nonlinear_arith)
                    requires
                        pow2(n + 1) == 2 * pow2(n),
                ;
                if n >= 53 {
                    lemma_pow2_increases(53, n);
                    assert(self.f * pow2(n) >= pow2(53)) by (nonlinear_arith)
                        requires
                            self.f >= 1,
                            pow2(n) >= pow2(53),
                    ;
                }
                n = n + 1;
            }
            res = DiyFp { f: res.f << 1, e: res.e - 1 };
        }
        let f = res.f;
        assert(f < 0x0040000000000000u64 && f & (0x0010000000000000u64 << 1u64) != 0 ==> f
            >= 0x0020000000000000u64 && f << 10u64 == 1024 * f) by (bit_vector);
        proof {
            lemma_pow2_adds(n, 10);
            assert(self.f * pow2(n + 10) == 1024 * (self.f * pow2(n))) by (nonlinear_arith)
                requires
                    pow2(n + 10) == pow2(n) * pow2(10),
                    pow2(10) == 1024,
            ;
            lemma_shift_to_top_unique(self.f as nat, 63, n + 10);
        }
        DiyFp {
            f: res.f << ((DIY_SIGNIFICAND_SIZE - DP_SIGNIFICAND_SIZE - 2) as u64),
            e: res.e - (DIY_SIGNIFICAND_SIZE - DP_SIGNIFICAND_SIZE - 2),
        }
    }

    /// The normalized boundaries of the value `self`, lower one first.
    pub fn normalized_boundaries(self) -> (r: (DiyFp, DiyFp))
        requires
            0 < self.f < 2 * DP_HIDDEN_BIT,
            self.e - 64 >= isize::MIN,
        ensures
            r == self.spec_normalized_boundaries(),
            r.0.e == r.1.e,
            self.e - 64 <= r.1.e <= self.e - 11,
            r.1.f >= TOP_BIT,
            r.0.f < r.1.f,
    {
        let f = self.f;
        assert(f < 0x0020000000000000u64 ==> f << 1u64 == 2 * f && f << 2u64 == 4 * f)
            by (bit_vector);
        let pl = DiyFp::new((self.f << 1) + 1, self.e - 1).normalize_boundary();
        let mi = if self.f == DP_HIDDEN_BIT {
            DiyFp::new((self.f << 2) - 1, self.e - 2)
        } else {
            DiyFp::new((self.f << 1) - 1, self.e - 1)
        };
        let up: u64 = (mi.e - pl.e) as u64;
        proof {
            self.lemma_normalized_boundaries();
            lemma_u64_shl_is_mul(mi.f, up);
        }
        (DiyFp { f: mi.f << up, e: pl.e }, pl)
    }

    /// The difference of two numbers of the same exponent.
    pub fn sub(self, rhs: DiyFp) -> (r: DiyFp)
        requires
            self.e == rhs.e,
            self.f >= rhs.f,
        ensures
            r.f == self.f - rhs.f,
            r.e == self.e,
    {
        DiyFp { f: self.f - rhs.f, e: self.e }
    }

    /// The product of two numbers, rounded to the nearest significand, a tie
    /// upwards.
    pub fn mul(self, rhs: DiyFp) -> (r: DiyFp)
        requires
            isize::MIN <= self.e + rhs.e,
            self.e + rhs.e + 64 <= isize::MAX,
        ensures
            r == self.spec_mul(rhs),
            r.f == (self.f * rhs.f + 0x8000000000000000) / 0x10000000000000000,
    {
        let a = self.f as u128;
        let b = rhs.f as u128;
        assert(a * b <= 0xffffffffffffffff * 0xffffffffffffffff) by (nonlinear_arith)
            requires
                a <= 0xffffffffffffffff,
                b <= 0xffffffffffffffff,
        ;
        assert(1u128 << 63u128 == 0x8000000000000000u128) by (bit_vector);
        let tmp: u128 = a * b + (1u128 << 63);
        assert(tmp >> 64u128 == tmp / 0x10000000000000000u128) by (bit_vector);
        DiyFp { f: (tmp >> 64) as u64, e: self.e + rhs.e + 64 }
    }

    /// The significand of a value has at most 53 bits, and is not zero
    /// unless the value is a zero.
    pub proof fn lemma_from_bits(bits: u64)
        ensures
            DiyFp::spec_from_bits(bits).f < 2 * DP_HIDDEN_BIT,
            DP_MIN_EXPONENT < DiyFp::spec_from_bits(bits).e <= 972,
            bits % TOP_BIT != 0 ==> DiyFp::spec_from_bits(bits).f != 0,
    {
    }

    /// Normalizing keeps the number and sets the highest bit.
    pub proof fn lemma_normalize(self)
        requires
            self.f != 0,
            self.e - 63 >= isize::MIN,
        ensures
            self.spec_normalize().f >= TOP_BIT,
            self.spec_normalize().f == self.f * pow2(shift_to_top(self.f as nat, 63)),
            self.spec_normalize().e == self.e - shift_to_top(self.f as nat, 63),
            shift_to_top(self.f as nat, 63) <= 63,
    {
        lemma2_to64();
        lemma2_to64_rest();
        lemma_shift_to_top(self.f as nat, 63);
    }

    /// The normalized boundaries of a value of at most 53 bits are the
    /// numbers `(2 * f + 1) * 2^(e - 1)` and `(2 * f - 1) * 2^(e - 1)`, or
    /// `(4 * f - 1) * 2^(e - 2)` for the lower one where `f` is the hidden
    /// bit alone, both with the exponent `e - 1 - t` for a `t` of at least
    /// 10. The normalized value itself has that exponent too.
    pub proof fn lemma_normalized_boundaries(self)
        requires
            0 < self.f < 2 * DP_HIDDEN_BIT,
            self.e - 64 >= isize::MIN,
        ensures
            ({
                let (mi, pl) = self.spec_normalized_boundaries();
                let t = self.e - 1 - pl.e;
                &&& mi.e == pl.e
                &&& 10 <= t < 63
                &&& pl.f >= TOP_BIT
                &&& pl.f == (2 * self.f + 1) * pow2(t as nat)
                &&& self.f != DP_HIDDEN_BIT ==> mi.f == (2 * self.f - 1) * pow2(t as nat)
                &&& self.f == DP_HIDDEN_BIT ==> mi.f == (4 * self.f - 1) * pow2((t - 1) as nat)
                &&& mi.f < pl.f
                &&& self.spec_normalize().e == pl.e
                &&& self.spec_normalize().f == 2 * self.f * pow2(t as nat)
            }),
    {
        let f = self.f as nat;
        let odd = DiyFp { f: (2 * self.f + 1) as u64, e: (self.e - 1) as isize };
        odd.lemma_normalize();
        self.lemma_normalize();
        let t = shift_to_top(odd.f as nat, 63);
        lemma2_to64();
        lemma2_to64_rest();
        lemma_pow2_pos(t);
        if t < 10 {
            lemma_pow2_increases(t, 9);
            assert((2 * f + 1) * pow2(t) < 0x0040000000000000 * pow2(9)) by (nonlinear_arith)
                requires
                    2 * f + 1 < 0x0040000000000000,
                    1 <= pow2(t) <= pow2(9),
            ;
        }
        if t >= 63 {
            lemma_pow2_increases(63, t);
            assert((2 * f + 1) * pow2(t) >= 3 * pow2(63)) by (nonlinear_arith)
                requires
                    f >= 1,
                    pow2(t) >= pow2(63),
            ;
        }
        lemma_shift_below_odd(f, 63, t);
        lemma_shift_to_top_unique(f, 63, t + 1);
        lemma_pow2_double(t);
        lemma_pow2_double((t - 1) as nat);
        assert(f * pow2(t + 1) == 2 * f * pow2(t)) by (nonlinear_arith)
            requires
                pow2(t + 1) == 2 * pow2(t),
        ;
        if self.f == DP_HIDDEN_BIT {
            assert((4 * f - 1) * pow2((t - 1) as nat) < (2 * f + 1) * pow2(t)) by (nonlinear_arith)
                requires
                    pow2(t) == 2 * pow2((t - 1) as nat),
                    pow2((t - 1) as nat) >= 1,
            ;
        } else {
            assert((2 * f - 1) * pow2(t) < (2 * f + 1) * pow2(t)) by (nonlinear_arith)
                requires
                    pow2(t) >= 1,
            ;
        }
    }
}

/// The significands of the cached powers `10^-348, 10^-340, ..., 10^340`.
pub const CACHED_POWERS_F: [u64; 87] = [
    0xfa8fd5a0081c0288, 0xbaaee17fa23ebf76,
    0x8b16fb203055ac76, 0xcf42894a5dce35ea,
    0x9a6bb0aa55653b2d, 0xe61acf033d1a45df,
    0xab70fe17c79ac6ca, 0xff77b1fcbebcdc4f,
    0xbe5691ef416bd60c, 0x8dd01fad907ffc3c,
    0xd3515c2831559a83, 0x9d71ac8fada6c9b5,
    0xea9c227723ee8bcb, 0xaecc49914078536d,
    0x823c12795db6ce57, 0xc21094364dfb5637,
    0x9096ea6f3848984f, 0xd77485cb25823ac7,
    0xa086cfcd97bf97f4, 0xef340a98172aace5,
    0xb23867fb2a35b28e, 0x84c8d4dfd2c63f3b,
    0xc5dd44271ad3cdba, 0x936b9fcebb25c996,
    0xdbac6c247d62a584, 0xa3ab66580d5fdaf6,
    0xf3e2f893dec3f126, 0xb5b5ada8aaff80b8,
    0x87625f056c7c4a8b, 0xc9bcff6034c13053,
    0x964e858c91ba2655, 0xdff9772470297ebd,
    0xa6dfbd9fb8e5b88f, 0xf8a95fcf88747d94,
    0xb94470938fa89bcf, 0x8a08f0f8bf0f156b,
    0xcdb02555653131b6, 0x993fe2c6d07b7fac,
    0xe45c10c42a2b3b06, 0xaa242499697392d3,
    0xfd87b5f28300ca0e, 0xbce5086492111aeb,
    0x8cbccc096f5088cc, 0xd1b71758e219652c,
    0x9c40000000000000, 0xe8d4a51000000000,
    0xad78ebc5ac620000, 0x813f3978f8940984,
    0xc097ce7bc90715b3, 0x8f7e32ce7bea5c70,
    0xd5d238a4abe98068, 0x9f4f2726179a2245,
    0xed63a231d4c4fb27, 0xb0de65388cc8ada8,
    0x83c7088e1aab65db, 0xc45d1df942711d9a,
    0x924d692ca61be758, 0xda01ee641a708dea,
    0xa26da3999aef774a, 0xf209787bb47d6b85,
    0xb454e4a179dd1877, 0x865b86925b9bc5c2,
    0xc83553c5c8965d3d, 0x952ab45cfa97a0b3,
    0xde469fbd99a05fe3, 0xa59bc234db398c25,
    0xf6c69a72a3989f5c, 0xb7dcbf5354e9bece,
    0x88fcf317f22241e2, 0xcc20ce9bd35c78a5,
    0x98165af37b2153df, 0xe2a0b5dc971f303a,
    0xa8d9d1535ce3b396, 0xfb9b7cd9a4a7443c,
    0xbb764c4ca7a44410, 0x8bab8eefb6409c1a,
    0xd01fef10a657842c, 0x9b10a4e5e9913129,
    0xe7109bfba19c0c9d, 0xac2820d9623bf429,
    0x80444b5e7aa7cf85, 0xbf21e44003acdd2d,
    0x8e679c2f5e44ff8f, 0xd433179d9c8cb841,
    0x9e19db92b4e31ba9, 0xeb96bf6ebadf77d9,
    0xaf87023b9bf0ee6b,
];

/// The binary exponents of the cached powers.
pub const CACHED_POWERS_E: [i16; 87] = [
    -1220, -1193, -1166, -1140, -1113, -1087, -1060, -1034, -1007, -980,
    -954, -927, -901, -874, -847, -821, -794, -768, -741, -715,
    -688, -661, -635, -608, -582, -555, -529, -502, -475, -449,
    -422, -396, -369, -343, -316, -289, -263, -236, -210, -183,
    -157, -130, -103, -77, -50, -24, 3, 30, 56, 83,
    109, 136, 162, 189, 216, 242, 269, 295, 322, 348,
    375, 402, 428, 455, 481, 508, 534, 561, 588, 614,
    641, 667, 694, 720, 747, 774, 800, 827, 853, 880,
    907, 933, 960, 986, 1013, 1039, 1066,
];

/// The cached power at `index`: about `10^(8 * index - 348)`.
pub open spec fn spec_cached_power(index: int) -> DiyFp {
    DiyFp { f: CACHED_POWERS_F[index], e: CACHED_POWERS_E[index] as isize }
}

/// The cached power that brings the binary exponent `e` into the window,
/// and the decimal exponent that it takes out.
pub open spec fn spec_get_cached_power(e: int) -> (DiyFp, int) {
    let index = cached_index(ALPHA - e);
    (spec_cached_power(index), cached_decimal_exponent(index))
}

pub fn get_cached_power_by_index(index: usize) -> (r: DiyFp)
    requires
        index < CACHED_POWERS,
    ensures
        r == spec_cached_power(index as int),
        r.f >= TOP_BIT,
{
    DiyFp::new(CACHED_POWERS_F[index], CACHED_POWERS_E[index] as isize)
}

/// Picks the cached power of ten for the binary exponent `e`: with
/// `k = ceil((ALPHA - e) * log10(2))` it is the first cached power from
/// `10^k` on. Returns it with its negated decimal exponent.
pub fn get_cached_power(e: isize) -> (r: (DiyFp, isize))
    requires
        MIN_DISTANCE <= ALPHA - e <= MAX_DISTANCE,
    ensures
        (r.0, r.1 as int) == spec_get_cached_power(e as int),
        r.0.f >= TOP_BIT,
        ALPHA < e + r.0.e + DIY_SIGNIFICAND_SIZE <= ALPHA + 27,
        -340 <= r.1 <= 348,
{
    let index = power_index(ALPHA - e);
    let k: isize = 348 - 8 * (index as isize);
    (get_cached_power_by_index(index), k)
}

/// The highest bit of every cached power is set, and the power picked for
/// a binary exponent brings it into the window from `ALPHA + 1` to
/// `ALPHA + 27`.
pub proof fn lemma_get_cached_power(e: int)
    requires
        MIN_DISTANCE <= ALPHA - e <= MAX_DISTANCE,
    ensures
        spec_get_cached_power(e).0.f >= TOP_BIT,
        ALPHA < e + spec_get_cached_power(e).0.e + DIY_SIGNIFICAND_SIZE <= ALPHA + 27,
        -340 <= spec_get_cached_power(e).1 <= 348,
{
}

} // verus!
