//! Extended-precision floating point with a 32-bit significand, used for
//! single-precision values, and the powers of ten cached in that form.

use crate::binary::{
    lemma_pow2_double, lemma_pow2_increases, lemma_shift_below_odd, lemma_shift_to_top,
    lemma_shift_to_top_unique, shift_to_top,
};
use crate::cached_power::{
    cached_decimal_exponent, cached_index, power_index, CACHED_POWERS, MAX_DISTANCE, MIN_DISTANCE,
};
use vstd::arithmetic::power2::*;
use vstd::bits::*;
use vstd::prelude::*;

verus! {

/// The width of the significand of a `DiyFp`.
pub const DIY_SIGNIFICAND_SIZE: isize = 32;

/// The width of the significand field of a single-precision value.
pub const SP_SIGNIFICAND_SIZE: isize = 23;

/// The exponent bias of a single-precision value whose significand is read
/// as a whole number.
pub const SP_EXPONENT_BIAS: isize = 0x7F + SP_SIGNIFICAND_SIZE;

/// The exponent below that of every value.
pub const SP_MIN_EXPONENT: isize = -SP_EXPONENT_BIAS;

/// The exponent field of a single-precision bit pattern.
pub const SP_EXPONENT_MASK: u32 = 0x7f800000;

/// The significand field of a single-precision bit pattern.
pub const SP_SIGNIFICAND_MASK: u32 = 0x007fffff;

/// The bit of a significand that the bit pattern of a normal value leaves
/// out.
pub const SP_HIDDEN_BIT: u32 = 0x00800000;

/// The highest bit of the significand of a `DiyFp`.
pub const TOP_BIT: u32 = 0x80000000;

/// The lower end of the window of binary exponents that scaling by a cached
/// power leads into, less one.
pub const ALPHA: isize = -29;

/// The number `f * 2^e`.
#[derive(Copy, Clone, Debug)]
pub struct DiyFp {
    pub f: u32,
    pub e: isize,
}

impl DiyFp {
    /// The magnitude that the bit pattern `bits` encodes: for a normal value
    /// the hidden bit is added to the significand field, a subnormal value
    /// has the exponent of the smallest normal one.
    pub open spec fn spec_from_bits(bits: u32) -> DiyFp {
        let biased_e = (bits / SP_HIDDEN_BIT) % 0x100;
        let significand = bits % SP_HIDDEN_BIT;
        if biased_e != 0 {
            DiyFp {
                f: (significand + SP_HIDDEN_BIT) as u32,
                e: (biased_e - SP_EXPONENT_BIAS) as isize,
            }
        } else {
            DiyFp { f: significand as u32, e: (SP_MIN_EXPONENT + 1) as isize }
        }
    }

    /// The same number with the highest bit of the significand set.
    pub open spec fn spec_normalize(self) -> DiyFp {
        let s = shift_to_top(self.f as nat, 31);
        DiyFp { f: (self.f * pow2(s)) as u32, e: (self.e - s) as isize }
    }

    /// The halfway points between `self` and its lower and upper neighbours
    /// among the single-precision values, lower one first, both normalized to
    /// the exponent of the upper one. Below a power of two the values lie
    /// twice as close as above it.
    pub open spec fn spec_normalized_boundaries(self) -> (DiyFp, DiyFp) {
        let pl = (DiyFp { f: (2 * self.f + 1) as u32, e: (self.e - 1) as isize }).spec_normalize();
        let mi_f = if self.f == SP_HIDDEN_BIT {
            4 * self.f - 1
        } else {
            2 * self.f - 1
        };
        let mi_e = if self.f == SP_HIDDEN_BIT {
            self.e - 2
        } else {
            self.e - 1
        };
        (DiyFp { f: (mi_f * pow2((mi_e - pl.e) as nat)) as u32, e: pl.e }, pl)
    }

    /// The product `self * rhs`, rounded to 32 bits, a tie upwards.
    pub open spec fn spec_mul(self, rhs: DiyFp) -> DiyFp {
        DiyFp {
            f: ((self.f * rhs.f + 0x80000000) / 0x100000000) as u32,
            e: (self.e + rhs.e + 32) as isize,
        }
    }

    pub fn new(f: u32, e: isize) -> (r: DiyFp)
        ensures
            r.f == f,
            r.e == e,
    {
        DiyFp { f, e }
    }

    /// Takes the magnitude of a single-precision value apart. The sign bit is
    /// not looked at.
    pub fn from_bits(bits: u32) -> (r: DiyFp)
        ensures
            r == DiyFp::spec_from_bits(bits),
            r.f < 2 * SP_HIDDEN_BIT,
            SP_MIN_EXPONENT < r.e <= 105,
    {
        let biased_e: isize = ((bits & SP_EXPONENT_MASK) >> (23 as u32)) as isize;
        let significand: u32 = bits & SP_SIGNIFICAND_MASK;
        assert((bits & 0x7f800000u32) >> 23u32 == (bits / 0x00800000u32) % 0x100u32)
            by (bit_vector);
        assert(bits & 0x007fffffu32 == bits % 0x00800000u32) by (bit_vector);
        if biased_e != 0 {
            DiyFp { f: significand + SP_HIDDEN_BIT, e: biased_e - SP_EXPONENT_BIAS }
        } else {
            DiyFp { f: significand, e: SP_MIN_EXPONENT + 1 }
        }
    }

    /// Shifts the significand up until its highest bit is set.
    pub fn normalize(self) -> (r: DiyFp)
        requires
            self.f != 0,
            self.e - 31 >= isize::MIN,
        ensures
            r == self.spec_normalize(),
            r.f >= TOP_BIT,
            self.e - 31 <= r.e <= self.e,
            r.f == self.f * pow2((self.e - r.e) as nat),
    {
        let mut res = self;
        let ghost n: nat = 0;
        proof {
            lemma2_to64();
            lemma2_to64_rest();
            lemma_shift_to_top(self.f as nat, 31);
        }
        while (res.f & TOP_BIT) == 0
            invariant
                self.f != 0,
                self.e - 31 >= isize::MIN,
                res.f != 0,
                res.f == self.f * pow2(n),
                res.e == self.e - n,
                shift_to_top(self.f as nat, 31) == n + shift_to_top(res.f as nat, 31),
                n <= shift_to_top(self.f as nat, 31) <= 31,
                pow2(31) == 0x80000000,
            decreases 0x100000000 - res.f,
        {
            let f = res.f;
            assert(f & 0x80000000u32 == 0 ==> f < 0x80000000u32 && f << 1u32
                == 2 * f) by (bit_vector);
            proof {
                assert(shift_to_top(f as nat, 31) == 1 + shift_to_top(2 * f as nat, 31));
                lemma_pow2_double(n);
                assert(self.f * pow2(n + 1) == 2 * (self.f * pow2(n))) by (nonlinear_arith)
                    requires
                        pow2(n + 1) == 2 * pow2(n),
                ;
                n = n + 1;
            }
            res = DiyFp { f: res.f << 1, e: res.e - 1 };
        }
        proof {
            let f = res.f;
            assert(f & 0x80000000u32 != 0 ==> f >= 0x80000000u32) by (bit_vector);
        }
        res
    }

    /// Shifts the significand, which is below `2^25`, up until the bit
    /// above the hidden bit is set, and then up to the top.
    pub fn normalize_boundary(self) -> (r: DiyFp)
        requires
            0 < self.f < 4 * SP_HIDDEN_BIT,
            self.e - 31 >= isize::MIN,
        ensures
            r == self.spec_normalize(),
            r.f >= TOP_BIT,
            self.e - 31 <= r.e <= self.e - 7,
            r.f == self.f * pow2((self.e - r.e) as nat),
    {
        let mut res = self;
        let ghost n: nat = 0;
        proof {
            lemma2_to64();
            lemma2_to64_rest();
        }
        while (res.f & (SP_HIDDEN_BIT << 1)) == 0
            invariant
                0 < self.f,
                self.e - 31 >= isize::MIN,
                0 < res.f < 4 * SP_HIDDEN_BIT,
                res.f == self.f * pow2(n),
                res.e == self.e - n,
                n <= 24,
                pow2(24) == 0x01000000,
            decreases 4 * SP_HIDDEN_BIT - res.f,
        {
            let f = res.f;
            assert(f < 0x02000000u32 && f & (0x00800000u32 << 1u32) == 0 ==> f
                < 0x01000000u32 && f << 1u32 == 2 * f) by (bit_vector);
            proof {
                lemma_pow2_double(n);
                assert(self.f * pow2(n + 1) == 2 * (self.f * pow2(n))) by (nonlinear_arith)
                    requires
                        pow2(n + 1) == 2 * pow2(n),
                ;
                if n >= 24 {
                    lemma_pow2_increases(24, n);
                    assert(self.f * pow2(n) >= pow2(24)) by (nonlinear_arith)
                        requires
                            self.f >= 1,
                            pow2(n) >= pow2(24),
                    ;
                }
                n = n + 1;
            }
            res = DiyFp { f: res.f << 1, e: res.e - 1 };
        }
        let f = res.f;
        assert(f < 0x02000000u32 && f & (0x00800000u32 << 1u32) != 0 ==> f
            >= 0x01000000u32 && f << 7u32 == 128 * f) by (bit_vector);
        proof {
            lemma_pow2_adds(n, 7);
            assert(self.f * pow2(n + 7) == 128 * (self.f * pow2(n))) by (nonlinear_arith)
                requires
                    pow2(n + 7) == pow2(n) * pow2(7),
                    pow2(7) == 128,
            ;
            lemma_shift_to_top_unique(self.f as nat, 31, n + 7);
        }
        DiyFp {
            f: res.f << ((DIY_SIGNIFICAND_SIZE - SP_SIGNIFICAND_SIZE - 2) as u32),
            e: res.e - (DIY_SIGNIFICAND_SIZE - SP_SIGNIFICAND_SIZE - 2),
        }
    }

    /// The normalized boundaries of the value `self`, lower one first.
    pub fn normalized_boundaries(self) -> (r: (DiyFp, DiyFp))
        requires
            0 < self.f < 2 * SP_HIDDEN_BIT,
            self.e - 32 >= isize::MIN,
        ensures
            r == self.spec_normalized_boundaries(),
            r.0.e == r.1.e,
            self.e - 32 <= r.1.e <= self.e - 8,
            r.1.f >= TOP_BIT,
            r.0.f < r.1.f,
    {
        let f = self.f;
        assert(f < 0x01000000u32 ==> f << 1u32 == 2 * f && f << 2u32 == 4 * f)
            by (bit_vector);
        let pl = DiyFp::new((self.f << 1) + 1, self.e - 1).normalize_boundary();
        let mi = if self.f == SP_HIDDEN_BIT {
            DiyFp::new((self.f << 2) - 1, self.e - 2)
        } else {
            DiyFp::new((self.f << 1) - 1, self.e - 1)
        };
        let up: u32 = (mi.e - pl.e) as u32;
        proof {
            self.lemma_normalized_boundaries();
            lemma_u32_shl_is_mul(mi.f, up);
        }
        (DiyFp { f: mi.f << up, e: pl.e }, pl)
    }

    /// The difference of two numbers of the same exponent.
    pub fn sub(self, rhs: DiyFp) -> (r: DiyFp)
        requires
            self.e == rhs.e,
            self.f >= rhs.f,
        ensures
            r.f == self.f - rhs.f,
            r.e == self.e,
    {
        DiyFp { f: self.f - rhs.f, e: self.e }
    }

    /// The product of two numbers, rounded to the nearest significand, a tie
    /// upwards.
    pub fn mul(self, rhs: DiyFp) -> (r: DiyFp)
        requires
            isize::MIN <= self.e + rhs.e,
            self.e + rhs.e + 32 <= isize::MAX,
        ensures
            r == self.spec_mul(rhs),
            r.f == (self.f * rhs.f + 0x80000000) / 0x100000000,
    {
        let a = self.f as u64;
        let b = rhs.f as u64;
        assert(a * b <= 0xffffffff * 0xffffffff) by (nonlinear_arith)
            requires
                a <= 0xffffffff,
                b <= 0xffffffff,
        ;
        assert(1u64 << 31u64 == 0x80000000u64) by (bit_vector);
        let tmp: u64 = a * b + (1u64 << 31);
        assert(tmp >> 32u64 == tmp / 0x100000000u64) by (bit_vector);
        DiyFp { f: (tmp >> 32) as u32, e: self.e + rhs.e + 32 }
    }

    /// The significand of a value has at most 24 bits, and is not zero
    /// unless the value is a zero.
    pub proof fn lemma_from_bits(bits: u32)
        ensures
            DiyFp::spec_from_bits(bits).f < 2 * SP_HIDDEN_BIT,
            SP_MIN_EXPONENT < DiyFp::spec_from_bits(bits).e <= 105,
            bits % TOP_BIT != 0 ==> DiyFp::spec_from_bits(bits).f != 0,
    {
    }

    /// Normalizing keeps the number and sets the highest bit.
    pub proof fn lemma_normalize(self)
        requires
            self.f != 0,
            self.e - 31 >= isize::MIN,
        ensures
            self.spec_normalize().f >= TOP_BIT,
            self.spec_normalize().f == self.f * pow2(shift_to_top(self.f as nat, 31)),
            self.spec_normalize().e == self.e - shift_to_top(self.f as nat, 31),
            shift_to_top(self.f as nat, 31) <= 31,
    {
        lemma2_to64();
        lemma2_to64_rest();
        lemma_shift_to_top(self.f as nat, 31);
    }

    /// The normalized boundaries of a value of at most 24 bits are the
    /// numbers `(2 * f + 1) * 2^(e - 1)` and `(2 * f - 1) * 2^(e - 1)`, or
    /// `(4 * f - 1) * 2^(e - 2)` for the lower one where `f` is the hidden
    /// bit alone, both with the exponent `e - 1 - t` for a `t` of at least
    /// 7. The normalized value itself has that exponent too.
    pub proof fn lemma_normalized_boundaries(self)
        requires
            0 < self.f < 2 * SP_HIDDEN_BIT,
            self.e - 32 >= isize::MIN,
        ensures
            ({
                let (mi, pl) = self.spec_normalized_boundaries();
                let t = self.e - 1 - pl.e;
                &&& mi.e == pl.e
                &&& 7 <= t < 31
                &&& pl.f >= TOP_BIT
                &&& pl.f == (2 * self.f + 1) * pow2(t as nat)
                &&& self.f != SP_HIDDEN_BIT ==> mi.f == (2 * self.f - 1) * pow2(t as nat)
                &&& self.f == SP_HIDDEN_BIT ==> mi.f == (4 * self.f - 1) * pow2((t - 1) as nat)
                &&& mi.f < pl.f
                &&& self.spec_normalize().e == pl.e
                &&& self.spec_normalize().f == 2 * self.f * pow2(t as nat)
            }),
    {
        let f = self.f as nat;
        let odd = DiyFp { f: (2 * self.f + 1) as u32, e: (self.e - 1) as isize };
        odd.lemma_normalize();
        self.lemma_normalize();
        let t = shift_to_top(odd.f as nat, 31);
        lemma2_to64();
        lemma2_to64_rest();
        lemma_pow2_pos(t);
        if t < 7 {
            lemma_pow2_increases(t, 6);
            assert((2 * f + 1) * pow2(t) < 0x02000000 * pow2(6)) by (nonlinear_arith)
                requires
                    2 * f + 1 < 0x02000000,
                    1 <= pow2(t) <= pow2(6),
            ;
        }
        if t >= 31 {
            lemma_pow2_increases(31, t);
            assert((2 * f + 1) * pow2(t) >= 3 * pow2(31)) by (nonlinear_arith)
                requires
                    f >= 1,
                    pow2(t) >= pow2(31),
            ;
        }
        lemma_shift_below_odd(f, 31, t);
        lemma_shift_to_top_unique(f, 31, t + 1);
        lemma_pow2_double(t);
        lemma_pow2_double((t - 1) as nat);
        assert(f * pow2(t + 1) == 2 * f * pow2(t)) by (nonlinear_arith)
            requires
                pow2(t + 1) == 2 * pow2(t),
        ;
        if self.f == SP_HIDDEN_BIT {
            assert((4 * f - 1) * pow2((t - 1) as nat) < (2 * f + 1) * pow2(t)) by (nonlinear_arith)
                requires
                    pow2(t) == 2 * pow2((t - 1) as nat),
                    pow2((t - 1) as nat) >= 1,
            ;
        } else {
            assert((2 * f - 1) * pow2(t) < (2 * f + 1) * pow2(t)) by (nonlinear_arith)
                requires
                    pow2(t) >= 1,
            ;
        }
    }
}

/// The significands of the cached powers `10^-348, 10^-340, ..., 10^340`.
pub const CACHED_POWERS_F: [u32; 87] = [
    0xfa8fd5a0, 0xbaaee180, 0x8b16fb20, 0xcf42894a,
    0x9a6bb0aa, 0xe61acf03, 0xab70fe18, 0xff77b1fd,
    0xbe5691ef, 0x8dd01fae, 0xd3515c28, 0x9d71ac90,
    0xea9c2277, 0xaecc4991, 0x823c1279, 0xc2109436,
    0x9096ea6f, 0xd77485cb, 0xa086cfce, 0xef340a98,
    0xb23867fb, 0x84c8d4e0, 0xc5dd4427, 0x936b9fcf,
    0xdbac6c24, 0xa3ab6658, 0xf3e2f894, 0xb5b5ada9,
    0x87625f05, 0xc9bcff60, 0x964e858d, 0xdff97724,
    0xa6dfbda0, 0xf8a95fd0, 0xb9447094, 0x8a08f0f9,
    0xcdb02555, 0x993fe2c7, 0xe45c10c4, 0xaa242499,
    0xfd87b5f3, 0xbce50865, 0x8cbccc09, 0xd1b71759,
    0x9c400000, 0xe8d4a510, 0xad78ebc6, 0x813f3979,
    0xc097ce7c, 0x8f7e32ce, 0xd5d238a5, 0x9f4f2726,
    0xed63a232, 0xb0de6539, 0x83c7088e, 0xc45d1df9,
    0x924d692d, 0xda01ee64, 0xa26da39a, 0xf209787c,
    0xb454e4a1, 0x865b8692, 0xc83553c6, 0x952ab45d,
    0xde469fbe, 0xa59bc235, 0xf6c69a73, 0xb7dcbf53,
    0x88fcf318, 0xcc20ce9c, 0x98165af3, 0xe2a0b5dd,
    0xa8d9d153, 0xfb9b7cda, 0xbb764c4d, 0x8bab8ef0,
    0xd01fef11, 0x9b10a4e6, 0xe7109bfc, 0xac2820d9,
    0x80444b5e, 0xbf21e440, 0x8e679c2f, 0xd433179e,
    0x9e19db93, 0xeb96bf6f, 0xaf87023c,
];

/// The binary exponents of the cached powers.
pub const CACHED_POWERS_E: [i16; 87] = [
    -1188, -1161, -1134, -1108, -1081, -1055, -1028, -1002, -975, -948,
    -922, -895, -869, -842, -815, -789, -762, -736, -709, -683,
    -656, -629, -603, -576, -550, -523, -497, -470, -443, -417,
    -390, -364, -337, -311, -284, -257, -231, -204, -178, -151,
    -125, -98, -71, -45, -18, 8, 35, 62, 88, 115,
    141, 168, 194, 221, 248, 274, 301, 327, 354, 380,
    407, 434, 460, 487, 513, 540, 566, 593, 620, 646,
    673, 699, 726, 752, 779, 806, 832, 859, 885, 912,
    939, 965, 992, 1018, 1045, 1071, 1098,
];

/// The cached power at `index`: about `10^(8 * index - 348)`.
pub open spec fn spec_cached_power(index: int) -> DiyFp {
    DiyFp { f: CACHED_POWERS_F[index], e: CACHED_POWERS_E[index] as isize }
}

/// The cached power that brings the binary exponent `e` into the window,
/// and the decimal exponent that it takes out.
pub open spec fn spec_get_cached_power(e: int) -> (DiyFp, int) {
    let index = cached_index(ALPHA - e);
    (spec_cached_power(index), cached_decimal_exponent(index))
}

pub fn get_cached_power_by_index(index: usize) -> (r: DiyFp)
    requires
        index < CACHED_POWERS,
    ensures
        r == spec_cached_power(index as int),
        r.f >= TOP_BIT,
{
    DiyFp::new(CACHED_POWERS_F[index], CACHED_POWERS_E[index] as isize)
}

/// Picks the cached power of ten for the binary exponent `e`: with
/// `k = ceil((ALPHA - e) * log10(2))` it is the first cached power from
/// `10^k` on. Returns it with its negated decimal exponent.
pub fn get_cached_power(e: isize) -> (r: (DiyFp, isize))
    requires
        MIN_DISTANCE <= ALPHA - e <= MAX_DISTANCE,
    ensures
        (r.0, r.1 as int) == spec_get_cached_power(e as int),
        r.0.f >= TOP_BIT,
        ALPHA < e + r.0.e + DIY_SIGNIFICAND_SIZE <= ALPHA + 27,
        -340 <= r.1 <= 348,
{
    let index = power_index(ALPHA - e);
    let k: isize = 348 - 8 * (index as isize);
    (get_cached_power_by_index(index), k)
}

/// The highest bit of every cached power is set, and the power picked for
/// a binary exponent brings it into the window from `ALPHA + 1` to
/// `ALPHA + 27`.
pub proof fn lemma_get_cached_power(e: int)
    requires
        MIN_DISTANCE <= ALPHA - e <= MAX_DISTANCE,
    ensures
        spec_get_cached_power(e).0.f >= TOP_BIT,
        ALPHA < e + spec_get_cached_power(e).0.e + DIY_SIGNIFICAND_SIZE <= ALPHA + 27,
        -340 <= spec_get_cached_power(e).1 <= 348,
{
}

} // verus!
