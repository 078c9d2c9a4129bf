//! The values of the powers of two and ten that the cached powers are
//! held against.

use crate::decimal::{lemma_pow10_adds, lemma_pow10_values, pow10};
use vstd::arithmetic::power2::*;
use vstd::prelude::*;

verus! {

/// A power of two, `d` places above another, is `y` times the other where
/// `y` is `2^d`.
pub proof fn lemma_pow2_times(a: nat, d: nat, y: nat)
    requires
        pow2(d) == y,
    ensures
        pow2(a + d) == y * pow2(a),
{
    lemma_pow2_adds(a, d);
    assert(pow2(a) * y == y * pow2(a)) by (nonlinear_arith);
}

/// A power of ten, `d` places above another, is `y` times the other where
/// `y` is `10^d`.
pub proof fn lemma_pow10_times(a: nat, d: nat, y: nat)
    requires
        pow10(d) == y,
    ensures
        pow10(a + d) == y * pow10(a),
{
    lemma_pow10_adds(a, d);
    assert(pow10(a) * y == y * pow10(a)) by (nonlinear_arith);
}

/// The value of `2^2`.
pub proof fn lemma_pow2_2()
    ensures
        pow2(2) == 0x4nat,
{
    lemma2_to64();
    lemma2_to64_rest();
}

/// The value of `2^7`.
pub proof fn lemma_pow2_7()
    ensures
        pow2(7) == 0x80nat,
{
    lemma2_to64();
    lemma2_to64_rest();
}

/// The value of `2^19`.
pub proof fn lemma_pow2_19()
    ensures
        pow2(19) == 0x80000nat,
{
    lemma2_to64();
    lemma2_to64_rest();
}

/// The value of `2^25`.
pub proof fn lemma_pow2_25()
    ensures
        pow2(25) == 0x2000000nat,
{
    lemma2_to64();
    lemma2_to64_rest();
}

/// The value of `2^29`.
pub proof fn lemma_pow2_29()
    ensures
        pow2(29) == 0x20000000nat,
{
    lemma2_to64();
    lemma2_to64_rest();
}

/// The value of `2^34`.
pub proof fn lemma_pow2_34()
    ensures
        pow2(34) == 0x400000000nat,
{
    lemma2_to64();
    lemma2_to64_rest();
}

/// The value of `2^46`.
pub proof fn lemma_pow2_46()
    ensures
        pow2(46) == 0x400000000000nat,
{
    lemma2_to64();
    lemma2_to64_rest();
}

/// The value of `2^51`.
pub proof fn lemma_pow2_51()
    ensures
        pow2(51) == 0x8000000000000nat,
{
    lemma2_to64();
    lemma2_to64_rest();
}

/// The value of `2^55`.
pub proof fn lemma_pow2_55()
    ensures
        pow2(55) == 0x80000000000000nat,
{
    lemma2_to64();
    lemma2_to64_rest();
}

/// The value of `2^61`.
pub proof fn lemma_pow2_61()
    ensures
        pow2(61) == 0x2000000000000000nat,
{
    lemma2_to64();
    lemma2_to64_rest();
}

/// The value of `2^72`.
pub proof fn lemma_pow2_72()
    ensures
        pow2(72) == 0x100_0000000000000000nat,
{
    lemma2_to64();
    lemma2_to64_rest();
    lemma_pow2_times(64, 8, 0x100);
}

/// The value of `2^78`.
pub proof fn lemma_pow2_78()
    ensures
        pow2(78) == 0x4000_0000000000000000nat,
{
    lemma2_to64();
    lemma2_to64_rest();
    lemma_pow2_72();
    lemma_pow2_times(72, 6, 0x40);
}

/// The value of `2^82`.
pub proof fn lemma_pow2_82()
    ensures
        pow2(82) == 0x40000_0000000000000000nat,
{
    lemma2_to64();
    lemma2_to64_rest();
    lemma_pow2_78();
    lemma_pow2_times(78, 4, 0x10);
}

/// The value of `2^87`.
pub proof fn lemma_pow2_87()
    ensures
        pow2(87) == 0x800000_0000000000000000nat,
{
    lemma2_to64();
    lemma2_to64_rest();
    lemma_pow2_82();
    lemma_pow2_times(82, 5, 0x20);
}

/// The value of `2^99`.
pub proof fn lemma_pow2_99()
    ensures
        pow2(99) == 0x800000000_0000000000000000nat,
{
    lemma2_to64();
    lemma2_to64_rest();
    lemma_pow2_87();
    lemma_pow2_times(87, 12, 0x1000);
}

/// The value of `2^104`.
pub proof fn lemma_pow2_104()
    ensures
        pow2(104) == 0x10000000000_0000000000000000nat,
{
    lemma2_to64();
    lemma2_to64_rest();
    lemma_pow2_99();
    lemma_pow2_times(99, 5, 0x20);
}

/// The value of `2^108`.
pub proof fn lemma_pow2_108()
    ensures
        pow2(108) == 0x100000000000_0000000000000000nat,
{
    lemma2_to64();
    lemma2_to64_rest();
    lemma_pow2_104();
    lemma_pow2_times(104, 4, 0x10);
}

/// The value of `2^114`.
pub proof fn lemma_pow2_114()
    ensures
        pow2(114) == 0x4000000000000_0000000000000000nat,
{
    lemma2_to64();
    lemma2_to64_rest();
    lemma_pow2_108();
    lemma_pow2_times(108, 6, 0x40);
}

/// The value of `2^126`.
pub proof fn lemma_pow2_126()
    ensures
        pow2(126) == 0x4000000000000000_0000000000000000nat,
{
    lemma2_to64();
    lemma2_to64_rest();
    lemma_pow2_114();
    lemma_pow2_times(114, 12, 0x1000);
}

/// The value of `2^131`.
pub proof fn lemma_pow2_131()
    ensures
        pow2(131) == 0x8_0000000000000000_0000000000000000nat,
{
    lemma2_to64();
    lemma2_to64_rest();
    lemma_pow2_126();
    lemma_pow2_times(126, 5, 0x20);
}

/// The value of `2^135`.
pub proof fn lemma_pow2_135()
    ensures
        pow2(135) == 0x80_0000000000000000_0000000000000000nat,
{
    lemma2_to64();
    lemma2_to64_rest();
    lemma_pow2_131();
    lemma_pow2_times(131, 4, 0x10);
}

/// The value of `2^140`.
pub proof fn lemma_pow2_140()
    ensures
        pow2(140) == 0x1000_0000000000000000_0000000000000000nat,
{
    lemma2_to64();
    lemma2_to64_rest();
    lemma_pow2_135();
    lemma_pow2_times(135, 5, 0x20);
}

/// The value of `2^152`.
pub proof fn lemma_pow2_152()
    ensures
        pow2(152) == 0x1000000_0000000000000000_0000000000000000nat,
{
    lemma2_to64();
    lemma2_to64_rest();
    lemma_pow2_140();
    lemma_pow2_times(140, 12, 0x1000);
}

/// The value of `2^158`.
pub proof fn lemma_pow2_158()
    ensures
        pow2(158) == 0x40000000_0000000000000000_0000000000000000nat,
{
    lemma2_to64();
    lemma2_to64_rest();
    lemma_pow2_152();
    lemma_pow2_times(152, 6, 0x40);
}

/// The value of `2^161`.
pub proof fn lemma_pow2_161()
    ensures
        pow2(161) == 0x200000000_0000000000000000_0000000000000000nat,
{
    lemma2_to64();
    lemma2_to64_rest();
    lemma_pow2_158();
    lemma_pow2_times(158, 3, 0x8);
}

/// The value of `2^167`.
pub proof fn lemma_pow2_167()
    ensures
        pow2(167) == 0x8000000000_0000000000000000_0000000000000000nat,
{
    lemma2_to64();
    lemma2_to64_rest();
    lemma_pow2_161();
    lemma_pow2_times(161, 6, 0x40);
}

/// The value of `2^179`.
pub proof fn lemma_pow2_179()
    ensures
        pow2(179) == 0x8000000000000_0000000000000000_0000000000000000nat,
{
    lemma2_to64();
    lemma2_to64_rest();
    lemma_pow2_167();
    lemma_pow2_times(167, 12, 0x1000);
}

/// The value of `2^184`.
pub proof fn lemma_pow2_184()
    ensures
        pow2(184) == 0x100000000000000_0000000000000000_0000000000000000nat,
{
    lemma2_to64();
    lemma2_to64_rest();
    lemma_pow2_179();
    lemma_pow2_times(179, 5, 0x20);
}

/// The value of `2^188`.
pub proof fn lemma_pow2_188()
    ensures
        pow2(188) == 0x1000000000000000_0000000000000000_0000000000000000nat,
{
    lemma2_to64();
    lemma2_to64_rest();
    lemma_pow2_184();
    lemma_pow2_times(184, 4, 0x10);
}

/// The value of `2^193`.
pub proof fn lemma_pow2_193()
    ensures
        pow2(193) == 0x2_0000000000000000_0000000000000000_0000000000000000nat,
{
    lemma2_to64();
    lemma2_to64_rest();
    lemma_pow2_188();
    lemma_pow2_times(188, 5, 0x20);
}

/// The value of `2^205`.
pub proof fn lemma_pow2_205()
    ensures
        pow2(205) == 0x2000_0000000000000000_0000000000000000_0000000000000000nat,
{
    lemma2_to64();
    lemma2_to64_rest();
    lemma_pow2_193();
    lemma_pow2_times(193, 12, 0x1000);
}

/// The value of `2^211`.
pub proof fn lemma_pow2_211()
    ensures
        pow2(211) == 0x80000_0000000000000000_0000000000000000_0000000000000000nat,
{
    lemma2_to64();
    lemma2_to64_rest();
    lemma_pow2_205();
    lemma_pow2_times(205, 6, 0x40);
}

/// The value of `2^215`.
pub proof fn lemma_pow2_215()
    ensures
        pow2(215) == 0x800000_0000000000000000_0000000000000000_0000000000000000nat,
{
    lemma2_to64();
    lemma2_to64_rest();
    lemma_pow2_211();
    lemma_pow2_times(211, 4, 0x10);
}

/// The value of `2^220`.
pub proof fn lemma_pow2_220()
    ensures
        pow2(220) == 0x10000000_0000000000000000_0000000000000000_0000000000000000nat,
{
    lemma2_to64();
    lemma2_to64_rest();
    lemma_pow2_215();
    lemma_pow2_times(215, 5, 0x20);
}

/// The value of `2^232`.
pub proof fn lemma_pow2_232()
    ensures
        pow2(232) == 0x10000000000_0000000000000000_0000000000000000_0000000000000000nat,
{
    lemma2_to64();
    lemma2_to64_rest();
    lemma_pow2_220();
    lemma_pow2_times(220, 12, 0x1000);
}

/// The value of `2^237`.
pub proof fn lemma_pow2_237()
    ensures
        pow2(237) == 0x200000000000_0000000000000000_0000000000000000_0000000000000000nat,
{
    lemma2_to64();
    lemma2_to64_rest();
    lemma_pow2_232();
    lemma_pow2_times(232, 5, 0x20);
}

/// The value of `2^241`.
pub proof fn lemma_pow2_241()
    ensures
        pow2(241) == 0x2000000000000_0000000000000000_0000000000000000_0000000000000000nat,
{
    lemma2_to64();
    lemma2_to64_rest();
    lemma_pow2_237();
    lemma_pow2_times(237, 4, 0x10);
}

/// The value of `2^247`.
pub proof fn lemma_pow2_247()
    ensures
        pow2(247) == 0x80000000000000_0000000000000000_0000000000000000_0000000000000000nat,
{
    lemma2_to64();
    lemma2_to64_rest();
    lemma_pow2_241();
    lemma_pow2_times(241, 6, 0x40);
}

/// The value of `2^258`.
pub proof fn lemma_pow2_258()
    ensures
        pow2(258) == 0x4_0000000000000000_0000000000000000_0000000000000000_0000000000000000nat,
{
    lemma2_to64();
    lemma2_to64_rest();
    lemma_pow2_247();
    lemma_pow2_times(247, 11, 0x800);
}

/// The value of `2^264`.
pub proof fn lemma_pow2_264()
    ensures
        pow2(264) == 0x100_0000000000000000_0000000000000000_0000000000000000_0000000000000000nat,
{
    lemma2_to64();
    lemma2_to64_rest();
    lemma_pow2_258();
    lemma_pow2_times(258, 6, 0x40);
}

/// The value of `2^268`.
pub proof fn lemma_pow2_268()
    ensures
        pow2(268) == 0x1000_0000000000000000_0000000000000000_0000000000000000_0000000000000000nat,
{
    lemma2_to64();
    lemma2_to64_rest();
    lemma_pow2_264();
    lemma_pow2_times(264, 4, 0x10);
}

/// The value of `2^273`.
pub proof fn lemma_pow2_273()
    ensures
        pow2(273) == 0x20000_0000000000000000_0000000000000000_0000000000000000_0000000000000000nat,
{
    lemma2_to64();
    lemma2_to64_rest();
    lemma_pow2_268();
    lemma_pow2_times(268, 5, 0x20);
}

/// The value of `2^285`.
pub proof fn lemma_pow2_285()
    ensures
        pow2(285) == 0x20000000_0000000000000000_0000000000000000_0000000000000000_0000000000000000nat,
{
    lemma2_to64();
    lemma2_to64_rest();
    lemma_pow2_273();
    lemma_pow2_times(273, 12, 0x1000);
}

/// The value of `2^290`.
pub proof fn lemma_pow2_290()
    ensures
        pow2(290) == 0x400000000_0000000000000000_0000000000000000_0000000000000000_0000000000000000nat,
{
    lemma2_to64();
    lemma2_to64_rest();
    lemma_pow2_285();
    lemma_pow2_times(285, 5, 0x20);
}

/// The value of `2^294`.
pub proof fn lemma_pow2_294()
    ensures
        pow2(294) == 0x4000000000_0000000000000000_0000000000000000_0000000000000000_0000000000000000nat,
{
    lemma2_to64();
    lemma2_to64_rest();
    lemma_pow2_290();
    lemma_pow2_times(290, 4, 0x10);
}

/// The value of `2^300`.
pub proof fn lemma_pow2_300()
    ensures
        pow2(300) == 0x100000000000_0000000000000000_0000000000000000_0000000000000000_0000000000000000nat,
{
    lemma2_to64();
    lemma2_to64_rest();
    lemma_pow2_294();
    lemma_pow2_times(294, 6, 0x40);
}

/// The value of `2^312`.
pub proof fn lemma_pow2_312()
    ensures
        pow2(312) == 0x100000000000000_0000000000000000_0000000000000000_0000000000000000_0000000000000000nat,
{
    lemma2_to64();
    lemma2_to64_rest();
    lemma_pow2_300();
    lemma_pow2_times(300, 12, 0x1000);
}

/// The value of `2^317`.
pub proof fn lemma_pow2_317()
    ensures
        pow2(317) == 0x2000000000000000_0000000000000000_0000000000000000_0000000000000000_0000000000000000nat,
{
    lemma2_to64();
    lemma2_to64_rest();
    lemma_pow2_312();
    lemma_pow2_times(312, 5, 0x20);
}

/// The value of `2^321`.
pub proof fn lemma_pow2_321()
    ensures
        pow2(321) == 0x2_0000000000000000_0000000000000000_0000000000000000_0000000000000000_0000000000000000nat,
{
    lemma2_to64();
    lemma2_to64_rest();
    lemma_pow2_317();
    lemma_pow2_times(317, 4, 0x10);
}

/// The value of `2^326`.
pub proof fn lemma_pow2_326()
    ensures
        pow2(326) == 0x40_0000000000000000_0000000000000000_0000000000000000_0000000000000000_0000000000000000nat,
{
    lemma2_to64();
    lemma2_to64_rest();
    lemma_pow2_321();
    lemma_pow2_times(321, 5, 0x20);
}

/// The value of `2^338`.
pub proof fn lemma_pow2_338()
    ensures
        pow2(338) == 0x40000_0000000000000000_0000000000000000_0000000000000000_0000000000000000_0000000000000000nat,
{
    lemma2_to64();
    lemma2_to64_rest();
    lemma_pow2_326();
    lemma_pow2_times(326, 12, 0x1000);
}

/// The value of `2^344`.
pub proof fn lemma_pow2_344()
    ensures
        pow2(344) == 0x1000000_0000000000000000_0000000000000000_0000000000000000_0000000000000000_0000000000000000nat,
{
    lemma2_to64();
    lemma2_to64_rest();
    lemma_pow2_338();
    lemma_pow2_times(338, 6, 0x40);
}

/// The value of `2^347`.
pub proof fn lemma_pow2_347()
    ensures
        pow2(347) == 0x8000000_0000000000000000_0000000000000000_0000000000000000_0000000000000000_0000000000000000nat,
{
    lemma2_to64();
    lemma2_to64_rest();
    lemma_pow2_344();
    lemma_pow2_times(344, 3, 0x8);
}

/// The value of `2^353`.
pub proof fn lemma_pow2_353()
    ensures
        pow2(353) == 0x200000000_0000000000000000_0000000000000000_0000000000000000_0000000000000000_0000000000000000nat,
{
    lemma2_to64();
    lemma2_to64_rest();
    lemma_pow2_347();
    lemma_pow2_times(347, 6, 0x40);
}

/// The value of `2^365`.
pub proof fn lemma_pow2_365()
    ensures
        pow2(365) == 0x200000000000_0000000000000000_0000000000000000_0000000000000000_0000000000000000_0000000000000000nat,
{
    lemma2_to64();
    lemma2_to64_rest();
    lemma_pow2_353();
    lemma_pow2_times(353, 12, 0x1000);
}

/// The value of `2^370`.
pub proof fn lemma_pow2_370()
    ensures
        pow2(370) == 0x4000000000000_0000000000000000_0000000000000000_0000000000000000_0000000000000000_0000000000000000nat,
{
    lemma2_to64();
    lemma2_to64_rest();
    lemma_pow2_365();
    lemma_pow2_times(365, 5, 0x20);
}

/// The value of `2^374`.
pub proof fn lemma_pow2_374()
    ensures
        pow2(374) == 0x40000000000000_0000000000000000_0000000000000000_0000000000000000_0000000000000000_0000000000000000nat,
{
    lemma2_to64();
    lemma2_to64_rest();
    lemma_pow2_370();
    lemma_pow2_times(370, 4, 0x10);
}

/// The value of `2^379`.
pub proof fn lemma_pow2_379()
    ensures
        pow2(379) == 0x800000000000000_0000000000000000_0000000000000000_0000000000000000_0000000000000000_0000000000000000nat,
{
    lemma2_to64();
    lemma2_to64_rest();
    lemma_pow2_374();
    lemma_pow2_times(374, 5, 0x20);
}

/// The value of `2^391`.
pub proof fn lemma_pow2_391()
    ensures
        pow2(391) == 0x80_0000000000000000_0000000000000000_0000000000000000_0000000000000000_0000000000000000_0000000000000000nat,
{
    lemma2_to64();
    lemma2_to64_rest();
    lemma_pow2_379();
    lemma_pow2_times(379, 12, 0x1000);
}

/// The value of `2^397`.
pub proof fn lemma_pow2_397()
    ensures
        pow2(397) == 0x2000_0000000000000000_0000000000000000_0000000000000000_0000000000000000_0000000000000000_0000000000000000nat,
{
    lemma2_to64();
    lemma2_to64_rest();
    lemma_pow2_391();
    lemma_pow2_times(391, 6, 0x40);
}

/// The value of `2^401`.
pub proof fn lemma_pow2_401()
    ensures
        pow2(401) == 0x20000_0000000000000000_0000000000000000_0000000000000000_0000000000000000_0000000000000000_0000000000000000nat,
{
    lemma2_to64();
    lemma2_to64_rest();
    lemma_pow2_397();
    lemma_pow2_times(397, 4, 0x10);
}

/// The value of `2^406`.
pub proof fn lemma_pow2_406()
    ensures
        pow2(406) == 0x400000_0000000000000000_0000000000000000_0000000000000000_0000000000000000_0000000000000000_0000000000000000nat,
{
    lemma2_to64();
    lemma2_to64_rest();
    lemma_pow2_401();
    lemma_pow2_times(401, 5, 0x20);
}

/// The value of `2^418`.
pub proof fn lemma_pow2_418()
    ensures
        pow2(418) == 0x400000000_0000000000000000_0000000000000000_0000000000000000_0000000000000000_0000000000000000_0000000000000000nat,
{
    lemma2_to64();
    lemma2_to64_rest();
    lemma_pow2_406();
    lemma_pow2_times(406, 12, 0x1000);
}

/// The value of `2^423`.
pub proof fn lemma_pow2_423()
    ensures
        pow2(423) == 0x8000000000_0000000000000000_0000000000000000_0000000000000000_0000000000000000_0000000000000000_0000000000000000nat,
{
    lemma2_to64();
    lemma2_to64_rest();
    lemma_pow2_418();
    lemma_pow2_times(418, 5, 0x20);
}

/// The value of `2^427`.
pub proof fn lemma_pow2_427()
    ensures
        pow2(427) == 0x80000000000_0000000000000000_0000000000000000_0000000000000000_0000000000000000_0000000000000000_0000000000000000nat,
{
    lemma2_to64();
    lemma2_to64_rest();
    lemma_pow2_423();
    lemma_pow2_times(423, 4, 0x10);
}

/// The value of `2^433`.
pub proof fn lemma_pow2_433()
    ensures
        pow2(433) == 0x2000000000000_0000000000000000_0000000000000000_0000000000000000_0000000000000000_0000000000000000_0000000000000000nat,
{
    lemma2_to64();
    lemma2_to64_rest();
    lemma_pow2_427();
    lemma_pow2_times(427, 6, 0x40);
}

/// The value of `2^444`.
pub proof fn lemma_pow2_444()
    ensures
        pow2(444) == 0x1000000000000000_0000000000000000_0000000000000000_0000000000000000_0000000000000000_0000000000000000_0000000000000000nat,
{
    lemma2_to64();
    lemma2_to64_rest();
    lemma_pow2_433();
    lemma_pow2_times(433, 11, 0x800);
}

/// The value of `2^450`.
pub proof fn lemma_pow2_450()
    ensures
        pow2(450) == 0x4_0000000000000000_0000000000000000_0000000000000000_0000000000000000_0000000000000000_0000000000000000_0000000000000000nat,
{
    lemma2_to64();
    lemma2_to64_rest();
    lemma_pow2_444();
    lemma_pow2_times(444, 6, 0x40);
}

/// The value of `2^454`.
pub proof fn lemma_pow2_454()
    ensures
        pow2(454) == 0x40_0000000000000000_0000000000000000_0000000000000000_0000000000000000_0000000000000000_0000000000000000_0000000000000000nat,
{
    lemma2_to64();
    lemma2_to64_rest();
    lemma_pow2_450();
    lemma_pow2_times(450, 4, 0x10);
}

/// The value of `2^459`.
pub proof fn lemma_pow2_459()
    ensures
        pow2(459) == 0x800_0000000000000000_0000000000000000_0000000000000000_0000000000000000_0000000000000000_0000000000000000_0000000000000000nat,
{
    lemma2_to64();
    lemma2_to64_rest();
    lemma_pow2_454();
    lemma_pow2_times(454, 5, 0x20);
}

/// The value of `2^471`.
pub proof fn lemma_pow2_471()
    ensures
        pow2(471) == 0x800000_0000000000000000_0000000000000000_0000000000000000_0000000000000000_0000000000000000_0000000000000000_0000000000000000nat,
{
    lemma2_to64();
    lemma2_to64_rest();
    lemma_pow2_459();
    lemma_pow2_times(459, 12, 0x1000);
}

/// The value of `2^476`.
pub proof fn lemma_pow2_476()
    ensures
        pow2(476) == 0x10000000_0000000000000000_0000000000000000_0000000000000000_0000000000000000_0000000000000000_0000000000000000_0000000000000000nat,
{
    lemma2_to64();
    lemma2_to64_rest();
    lemma_pow2_471();
    lemma_pow2_times(471, 5, 0x20);
}

/// The value of `2^480`.
pub proof fn lemma_pow2_480()
    ensures
        pow2(480) == 0x100000000_0000000000000000_0000000000000000_0000000000000000_0000000000000000_0000000000000000_0000000000000000_0000000000000000nat,
{
    lemma2_to64();
    lemma2_to64_rest();
    lemma_pow2_476();
    lemma_pow2_times(476, 4, 0x10);
}

/// The value of `2^486`.
pub proof fn lemma_pow2_486()
    ensures
        pow2(486) == 0x4000000000_0000000000000000_0000000000000000_0000000000000000_0000000000000000_0000000000000000_0000000000000000_0000000000000000nat,
{
    lemma2_to64();
    lemma2_to64_rest();
    lemma_pow2_480();
    lemma_pow2_times(480, 6, 0x40);
}

/// The value of `2^498`.
pub proof fn lemma_pow2_498()
    ensures
        pow2(498) == 0x4000000000000_0000000000000000_0000000000000000_0000000000000000_0000000000000000_0000000000000000_0000000000000000_0000000000000000nat,
{
    lemma2_to64();
    lemma2_to64_rest();
    lemma_pow2_486();
    lemma_pow2_times(486, 12, 0x1000);
}

/// The value of `2^503`.
pub proof fn lemma_pow2_503()
    ensures
        pow2(503) == 0x80000000000000_0000000000000000_0000000000000000_0000000000000000_0000000000000000_0000000000000000_0000000000000000_0000000000000000nat,
{
    lemma2_to64();
    lemma2_to64_rest();
    lemma_pow2_498();
    lemma_pow2_times(498, 5, 0x20);
}

/// The value of `2^507`.
pub proof fn lemma_pow2_507()
    ensures
        pow2(507) == 0x800000000000000_0000000000000000_0000000000000000_0000000000000000_0000000000000000_0000000000000000_0000000000000000_0000000000000000nat,
{
    lemma2_to64();
    lemma2_to64_rest();
    lemma_pow2_503();
    lemma_pow2_times(503, 4, 0x10);
}

/// The value of `2^512`.
pub proof fn lemma_pow2_512()
    ensures
        pow2(512) == 0x1_0000000000000000_0000000000000000_0000000000000000_0000000000000000_0000000000000000_0000000000000000_0000000000000000_0000000000000000nat,
{
    lemma2_to64();
    lemma2_to64_rest();
    lemma_pow2_507();
    lemma_pow2_times(507, 5, 0x20);
}

/// The value of `2^524`.
pub proof fn lemma_pow2_524()
    ensures
        pow2(524) == 0x1000_0000000000000000_0000000000000000_0000000000000000_0000000000000000_0000000000000000_0000000000000000_0000000000000000_0000000000000000nat,
{
    lemma2_to64();
    lemma2_to64_rest();
    lemma_pow2_512();
    lemma_pow2_times(512, 12, 0x1000);
}

/// The value of `2^530`.
pub proof fn lemma_pow2_530()
    ensures
        pow2(530) == 0x40000_0000000000000000_0000000000000000_0000000000000000_0000000000000000_0000000000000000_0000000000000000_0000000000000000_0000000000000000nat,
{
    lemma2_to64();
    lemma2_to64_rest();
    lemma_pow2_524();
    lemma_pow2_times(524, 6, 0x40);
}

/// The value of `2^533`.
pub proof fn lemma_pow2_533()
    ensures
        pow2(533) == 0x200000_0000000000000000_0000000000000000_0000000000000000_0000000000000000_0000000000000000_0000000000000000_0000000000000000_0000000000000000nat,
{
    lemma2_to64();
    lemma2_to64_rest();
    lemma_pow2_530();
    lemma_pow2_times(530, 3, 0x8);
}

/// The value of `2^539`.
pub proof fn lemma_pow2_539()
    ensures
        pow2(539) == 0x8000000_0000000000000000_0000000000000000_0000000000000000_0000000000000000_0000000000000000_0000000000000000_0000000000000000_0000000000000000nat,
{
    lemma2_to64();
    lemma2_to64_rest();
    lemma_pow2_533();
    lemma_pow2_times(533, 6, 0x40);
}

/// The value of `2^551`.
pub proof fn lemma_pow2_551()
    ensures
        pow2(551) == 0x8000000000_0000000000000000_0000000000000000_0000000000000000_0000000000000000_0000000000000000_0000000000000000_0000000000000000_0000000000000000nat,
{
    lemma2_to64();
    lemma2_to64_rest();
    lemma_pow2_539();
    lemma_pow2_times(539, 12, 0x1000);
}

/// The value of `2^556`.
pub proof fn lemma_pow2_556()
    ensures
        pow2(556) == 0x100000000000_0000000000000000_0000000000000000_0000000000000000_0000000000000000_0000000000000000_0000000000000000_0000000000000000_0000000000000000nat,
{
    lemma2_to64();
    lemma2_to64_rest();
    lemma_pow2_551();
    lemma_pow2_times(551, 5, 0x20);
}

/// The value of `2^560`.
pub proof fn lemma_pow2_560()
    ensures
        pow2(560) == 0x1000000000000_0000000000000000_0000000000000000_0000000000000000_0000000000000000_0000000000000000_0000000000000000_0000000000000000_0000000000000000nat,
{
    lemma2_to64();
    lemma2_to64_rest();
    lemma_pow2_556();
    lemma_pow2_times(556, 4, 0x10);
}

/// The value of `2^565`.
pub proof fn lemma_pow2_565()
    ensures
        pow2(565) == 0x20000000000000_0000000000000000_0000000000000000_0000000000000000_0000000000000000_0000000000000000_0000000000000000_0000000000000000_0000000000000000nat,
{
    lemma2_to64();
    lemma2_to64_rest();
    lemma_pow2_560();
    lemma_pow2_times(560, 5, 0x20);
}

/// The value of `2^577`.
pub proof fn lemma_pow2_577()
    ensures
        pow2(577) == 0x2_0000000000000000_0000000000000000_0000000000000000_0000000000000000_0000000000000000_0000000000000000_0000000000000000_0000000000000000_0000000000000000nat,
{
    lemma2_to64();
    lemma2_to64_rest();
    lemma_pow2_565();
    lemma_pow2_times(565, 12, 0x1000);
}

/// The value of `2^583`.
pub proof fn lemma_pow2_583()
    ensures
        pow2(583) == 0x80_0000000000000000_0000000000000000_0000000000000000_0000000000000000_0000000000000000_0000000000000000_0000000000000000_0000000000000000_0000000000000000nat,
{
    lemma2_to64();
    lemma2_to64_rest();
    lemma_pow2_577();
    lemma_pow2_times(577, 6, 0x40);
}

/// The value of `2^587`.
pub proof fn lemma_pow2_587()
    ensures
        pow2(587) == 0x800_0000000000000000_0000000000000000_0000000000000000_0000000000000000_0000000000000000_0000000000000000_0000000000000000_0000000000000000_0000000000000000nat,
{
    lemma2_to64();
    lemma2_to64_rest();
    lemma_pow2_583();
    lemma_pow2_times(583, 4, 0x10);
}

/// The value of `2^592`.
pub proof fn lemma_pow2_592()
    ensures
        pow2(592) == 0x10000_0000000000000000_0000000000000000_0000000000000000_0000000000000000_0000000000000000_0000000000000000_0000000000000000_0000000000000000_0000000000000000nat,
{
    lemma2_to64();
    lemma2_to64_rest();
    lemma_pow2_587();
    lemma_pow2_times(587, 5, 0x20);
}

/// The value of `2^604`.
pub proof fn lemma_pow2_604()
    ensures
        pow2(604) == 0x10000000_0000000000000000_0000000000000000_0000000000000000_0000000000000000_0000000000000000_0000000000000000_0000000000000000_0000000000000000_0000000000000000nat,
{
    lemma2_to64();
    lemma2_to64_rest();
    lemma_pow2_592();
    lemma_pow2_times(592, 12, 0x1000);
}

/// The value of `2^609`.
pub proof fn lemma_pow2_609()
    ensures
        pow2(609) == 0x200000000_0000000000000000_0000000000000000_0000000000000000_0000000000000000_0000000000000000_0000000000000000_0000000000000000_0000000000000000_0000000000000000nat,
{
    lemma2_to64();
    lemma2_to64_rest();
    lemma_pow2_604();
    lemma_pow2_times(604, 5, 0x20);
}

/// The value of `2^613`.
pub proof fn lemma_pow2_613()
    ensures
        pow2(613) == 0x2000000000_0000000000000000_0000000000000000_0000000000000000_0000000000000000_0000000000000000_0000000000000000_0000000000000000_0000000000000000_0000000000000000nat,
{
    lemma2_to64();
    lemma2_to64_rest();
    lemma_pow2_609();
    lemma_pow2_times(609, 4, 0x10);
}

/// The value of `2^619`.
pub proof fn lemma_pow2_619()
    ensures
        pow2(619) == 0x80000000000_0000000000000000_0000000000000000_0000000000000000_0000000000000000_0000000000000000_0000000000000000_0000000000000000_0000000000000000_0000000000000000nat,
{
    lemma2_to64();
    lemma2_to64_rest();
    lemma_pow2_613();
    lemma_pow2_times(613, 6, 0x40);
}

/// The value of `2^630`.
pub proof fn lemma_pow2_630()
    ensures
        pow2(630) == 0x40000000000000_0000000000000000_0000000000000000_0000000000000000_0000000000000000_0000000000000000_0000000000000000_0000000000000000_0000000000000000_0000000000000000nat,
{
    lemma2_to64();
    lemma2_to64_rest();
    lemma_pow2_619();
    lemma_pow2_times(619, 11, 0x800);
}

/// The value of `2^636`.
pub proof fn lemma_pow2_636()
    ensures
        pow2(636) == 0x1000000000000000_0000000000000000_0000000000000000_0000000000000000_0000000000000000_0000000000000000_0000000000000000_0000000000000000_0000000000000000_0000000000000000nat,
{
    lemma2_to64();
    lemma2_to64_rest();
    lemma_pow2_630();
    lemma_pow2_times(630, 6, 0x40);
}

/// The value of `2^640`.
pub proof fn lemma_pow2_640()
    ensures
        pow2(640) == 0x1_0000000000000000_0000000000000000_0000000000000000_0000000000000000_0000000000000000_0000000000000000_0000000000000000_0000000000000000_0000000000000000_0000000000000000nat,
{
    lemma2_to64();
    lemma2_to64_rest();
    lemma_pow2_636();
    lemma_pow2_times(636, 4, 0x10);
}

/// The value of `2^645`.
pub proof fn lemma_pow2_645()
    ensures
        pow2(645) == 0x20_0000000000000000_0000000000000000_0000000000000000_0000000000000000_0000000000000000_0000000000000000_0000000000000000_0000000000000000_0000000000000000_0000000000000000nat,
{
    lemma2_to64();
    lemma2_to64_rest();
    lemma_pow2_640();
    lemma_pow2_times(640, 5, 0x20);
}

/// The value of `2^657`.
pub proof fn lemma_pow2_657()
    ensures
        pow2(657) == 0x20000_0000000000000000_0000000000000000_0000000000000000_0000000000000000_0000000000000000_0000000000000000_0000000000000000_0000000000000000_0000000000000000_0000000000000000nat,
{
    lemma2_to64();
    lemma2_to64_rest();
    lemma_pow2_645();
    lemma_pow2_times(645, 12, 0x1000);
}

/// The value of `2^662`.
pub proof fn lemma_pow2_662()
    ensures
        pow2(662) == 0x400000_0000000000000000_0000000000000000_0000000000000000_0000000000000000_0000000000000000_0000000000000000_0000000000000000_0000000000000000_0000000000000000_0000000000000000nat,
{
    lemma2_to64();
    lemma2_to64_rest();
    lemma_pow2_657();
    lemma_pow2_times(657, 5, 0x20);
}

/// The value of `2^666`.
pub proof fn lemma_pow2_666()
    ensures
        pow2(666) == 0x4000000_0000000000000000_0000000000000000_0000000000000000_0000000000000000_0000000000000000_0000000000000000_0000000000000000_0000000000000000_0000000000000000_0000000000000000nat,
{
    lemma2_to64();
    lemma2_to64_rest();
    lemma_pow2_662();
    lemma_pow2_times(662, 4, 0x10);
}

/// The value of `2^672`.
pub proof fn lemma_pow2_672()
    ensures
        pow2(672) == 0x100000000_0000000000000000_0000000000000000_0000000000000000_0000000000000000_0000000000000000_0000000000000000_0000000000000000_0000000000000000_0000000000000000_0000000000000000nat,
{
    lemma2_to64();
    lemma2_to64_rest();
    lemma_pow2_666();
    lemma_pow2_times(666, 6, 0x40);
}

/// The value of `2^684`.
pub proof fn lemma_pow2_684()
    ensures
        pow2(684) == 0x100000000000_0000000000000000_0000000000000000_0000000000000000_0000000000000000_0000000000000000_0000000000000000_0000000000000000_0000000000000000_0000000000000000_0000000000000000nat,
{
    lemma2_to64();
    lemma2_to64_rest();
    lemma_pow2_672();
    lemma_pow2_times(672, 12, 0x1000);
}

/// The value of `2^689`.
pub proof fn lemma_pow2_689()
    ensures
        pow2(689) == 0x2000000000000_0000000000000000_0000000000000000_0000000000000000_0000000000000000_0000000000000000_0000000000000000_0000000000000000_0000000000000000_0000000000000000_0000000000000000nat,
{
    lemma2_to64();
    lemma2_to64_rest();
    lemma_pow2_684();
    lemma_pow2_times(684, 5, 0x20);
}

/// The value of `2^693`.
pub proof fn lemma_pow2_693()
    ensures
        pow2(693) == 0x20000000000000_0000000000000000_0000000000000000_0000000000000000_0000000000000000_0000000000000000_0000000000000000_0000000000000000_0000000000000000_0000000000000000_0000000000000000nat,
{
    lemma2_to64();
    lemma2_to64_rest();
    lemma_pow2_689();
    lemma_pow2_times(689, 4, 0x10);
}

/// The value of `2^698`.
pub proof fn lemma_pow2_698()
    ensures
        pow2(698) == 0x400000000000000_0000000000000000_0000000000000000_0000000000000000_0000000000000000_0000000000000000_0000000000000000_0000000000000000_0000000000000000_0000000000000000_0000000000000000nat,
{
    lemma2_to64();
    lemma2_to64_rest();
    lemma_pow2_693();
    lemma_pow2_times(693, 5, 0x20);
}

/// The value of `2^710`.
pub proof fn lemma_pow2_710()
    ensures
        pow2(710) == 0x40_0000000000000000_0000000000000000_0000000000000000_0000000000000000_0000000000000000_0000000000000000_0000000000000000_0000000000000000_0000000000000000_0000000000000000_0000000000000000nat,
{
    lemma2_to64();
    lemma2_to64_rest();
    lemma_pow2_698();
    lemma_pow2_times(698, 12, 0x1000);
}

/// The value of `2^716`.
pub proof fn lemma_pow2_716()
    ensures
        pow2(716) == 0x1000_0000000000000000_0000000000000000_0000000000000000_0000000000000000_0000000000000000_0000000000000000_0000000000000000_0000000000000000_0000000000000000_0000000000000000_0000000000000000nat,
{
    lemma2_to64();
    lemma2_to64_rest();
    lemma_pow2_710();
    lemma_pow2_times(710, 6, 0x40);
}

/// The value of `2^719`.
pub proof fn lemma_pow2_719()
    ensures
        pow2(719) == 0x8000_0000000000000000_0000000000000000_0000000000000000_0000000000000000_0000000000000000_0000000000000000_0000000000000000_0000000000000000_0000000000000000_0000000000000000_0000000000000000nat,
{
    lemma2_to64();
    lemma2_to64_rest();
    lemma_pow2_716();
    lemma_pow2_times(716, 3, 0x8);
}

/// The value of `2^725`.
pub proof fn lemma_pow2_725()
    ensures
        pow2(725) == 0x200000_0000000000000000_0000000000000000_0000000000000000_0000000000000000_0000000000000000_0000000000000000_0000000000000000_0000000000000000_0000000000000000_0000000000000000_0000000000000000nat,
{
    lemma2_to64();
    lemma2_to64_rest();
    lemma_pow2_719();
    lemma_pow2_times(719, 6, 0x40);
}

/// The value of `2^737`.
pub proof fn lemma_pow2_737()
    ensures
        pow2(737) == 0x200000000_0000000000000000_0000000000000000_0000000000000000_0000000000000000_0000000000000000_0000000000000000_0000000000000000_0000000000000000_0000000000000000_0000000000000000_0000000000000000nat,
{
    lemma2_to64();
    lemma2_to64_rest();
    lemma_pow2_725();
    lemma_pow2_times(725, 12, 0x1000);
}

/// The value of `2^742`.
pub proof fn lemma_pow2_742()
    ensures
        pow2(742) == 0x4000000000_0000000000000000_0000000000000000_0000000000000000_0000000000000000_0000000000000000_0000000000000000_0000000000000000_0000000000000000_0000000000000000_0000000000000000_0000000000000000nat,
{
    lemma2_to64();
    lemma2_to64_rest();
    lemma_pow2_737();
    lemma_pow2_times(737, 5, 0x20);
}

/// The value of `2^746`.
pub proof fn lemma_pow2_746()
    ensures
        pow2(746) == 0x40000000000_0000000000000000_0000000000000000_0000000000000000_0000000000000000_0000000000000000_0000000000000000_0000000000000000_0000000000000000_0000000000000000_0000000000000000_0000000000000000nat,
{
    lemma2_to64();
    lemma2_to64_rest();
    lemma_pow2_742();
    lemma_pow2_times(742, 4, 0x10);
}

/// The value of `2^751`.
pub proof fn lemma_pow2_751()
    ensures
        pow2(751) == 0x800000000000_0000000000000000_0000000000000000_0000000000000000_0000000000000000_0000000000000000_0000000000000000_0000000000000000_0000000000000000_0000000000000000_0000000000000000_0000000000000000nat,
{
    lemma2_to64();
    lemma2_to64_rest();
    lemma_pow2_746();
    lemma_pow2_times(746, 5, 0x20);
}

/// The value of `2^763`.
pub proof fn lemma_pow2_763()
    ensures
        pow2(763) == 0x800000000000000_0000000000000000_0000000000000000_0000000000000000_0000000000000000_0000000000000000_0000000000000000_0000000000000000_0000000000000000_0000000000000000_0000000000000000_0000000000000000nat,
{
    lemma2_to64();
    lemma2_to64_rest();
    lemma_pow2_751();
    lemma_pow2_times(751, 12, 0x1000);
}

/// The value of `2^769`.
pub proof fn lemma_pow2_769()
    ensures
        pow2(769) == 0x2_0000000000000000_0000000000000000_0000000000000000_0000000000000000_0000000000000000_0000000000000000_0000000000000000_0000000000000000_0000000000000000_0000000000000000_0000000000000000_0000000000000000nat,
{
    lemma2_to64();
    lemma2_to64_rest();
    lemma_pow2_763();
    lemma_pow2_times(763, 6, 0x40);
}

/// The value of `2^773`.
pub proof fn lemma_pow2_773()
    ensures
        pow2(773) == 0x20_0000000000000000_0000000000000000_0000000000000000_0000000000000000_0000000000000000_0000000000000000_0000000000000000_0000000000000000_0000000000000000_0000000000000000_0000000000000000_0000000000000000nat,
{
    lemma2_to64();
    lemma2_to64_rest();
    lemma_pow2_769();
    lemma_pow2_times(769, 4, 0x10);
}

/// The value of `2^778`.
pub proof fn lemma_pow2_778()
    ensures
        pow2(778) == 0x400_0000000000000000_0000000000000000_0000000000000000_0000000000000000_0000000000000000_0000000000000000_0000000000000000_0000000000000000_0000000000000000_0000000000000000_0000000000000000_0000000000000000nat,
{
    lemma2_to64();
    lemma2_to64_rest();
    lemma_pow2_773();
    lemma_pow2_times(773, 5, 0x20);
}

/// The value of `2^790`.
pub proof fn lemma_pow2_790()
    ensures
        pow2(790) == 0x400000_0000000000000000_0000000000000000_0000000000000000_0000000000000000_0000000000000000_0000000000000000_0000000000000000_0000000000000000_0000000000000000_0000000000000000_0000000000000000_0000000000000000nat,
{
    lemma2_to64();
    lemma2_to64_rest();
    lemma_pow2_778();
    lemma_pow2_times(778, 12, 0x1000);
}

/// The value of `2^795`.
pub proof fn lemma_pow2_795()
    ensures
        pow2(795) == 0x8000000_0000000000000000_0000000000000000_0000000000000000_0000000000000000_0000000000000000_0000000000000000_0000000000000000_0000000000000000_0000000000000000_0000000000000000_0000000000000000_0000000000000000nat,
{
    lemma2_to64();
    lemma2_to64_rest();
    lemma_pow2_790();
    lemma_pow2_times(790, 5, 0x20);
}

/// The value of `2^799`.
pub proof fn lemma_pow2_799()
    ensures
        pow2(799) == 0x80000000_0000000000000000_0000000000000000_0000000000000000_0000000000000000_0000000000000000_0000000000000000_0000000000000000_0000000000000000_0000000000000000_0000000000000000_0000000000000000_0000000000000000nat,
{
    lemma2_to64();
    lemma2_to64_rest();
    lemma_pow2_795();
    lemma_pow2_times(795, 4, 0x10);
}

/// The value of `2^805`.
pub proof fn lemma_pow2_805()
    ensures
        pow2(805) == 0x2000000000_0000000000000000_0000000000000000_0000000000000000_0000000000000000_0000000000000000_0000000000000000_0000000000000000_0000000000000000_0000000000000000_0000000000000000_0000000000000000_0000000000000000nat,
{
    lemma2_to64();
    lemma2_to64_rest();
    lemma_pow2_799();
    lemma_pow2_times(799, 6, 0x40);
}

/// The value of `2^816`.
pub proof fn lemma_pow2_816()
    ensures
        pow2(816) == 0x1000000000000_0000000000000000_0000000000000000_0000000000000000_0000000000000000_0000000000000000_0000000000000000_0000000000000000_0000000000000000_0000000000000000_0000000000000000_0000000000000000_0000000000000000nat,
{
    lemma2_to64();
    lemma2_to64_rest();
    lemma_pow2_805();
    lemma_pow2_times(805, 11, 0x800);
}

/// The value of `2^822`.
pub proof fn lemma_pow2_822()
    ensures
        pow2(822) == 0x40000000000000_0000000000000000_0000000000000000_0000000000000000_0000000000000000_0000000000000000_0000000000000000_0000000000000000_0000000000000000_0000000000000000_0000000000000000_0000000000000000_0000000000000000nat,
{
    lemma2_to64();
    lemma2_to64_rest();
    lemma_pow2_816();
    lemma_pow2_times(816, 6, 0x40);
}

/// The value of `2^826`.
pub proof fn lemma_pow2_826()
    ensures
        pow2(826) == 0x400000000000000_0000000000000000_0000000000000000_0000000000000000_0000000000000000_0000000000000000_0000000000000000_0000000000000000_0000000000000000_0000000000000000_0000000000000000_0000000000000000_0000000000000000nat,
{
    lemma2_to64();
    lemma2_to64_rest();
    lemma_pow2_822();
    lemma_pow2_times(822, 4, 0x10);
}

/// The value of `2^831`.
pub proof fn lemma_pow2_831()
    ensures
        pow2(831) == 0x8000000000000000_0000000000000000_0000000000000000_0000000000000000_0000000000000000_0000000000000000_0000000000000000_0000000000000000_0000000000000000_0000000000000000_0000000000000000_0000000000000000_0000000000000000nat,
{
    lemma2_to64();
    lemma2_to64_rest();
    lemma_pow2_826();
    lemma_pow2_times(826, 5, 0x20);
}

/// The value of `2^843`.
pub proof fn lemma_pow2_843()
    ensures
        pow2(843) == 0x800_0000000000000000_0000000000000000_0000000000000000_0000000000000000_0000000000000000_0000000000000000_0000000000000000_0000000000000000_0000000000000000_0000000000000000_0000000000000000_0000000000000000_0000000000000000nat,
{
    lemma2_to64();
    lemma2_to64_rest();
    lemma_pow2_831();
    lemma_pow2_times(831, 12, 0x1000);
}

/// The value of `2^848`.
pub proof fn lemma_pow2_848()
    ensures
        pow2(848) == 0x10000_0000000000000000_0000000000000000_0000000000000000_0000000000000000_0000000000000000_0000000000000000_0000000000000000_0000000000000000_0000000000000000_0000000000000000_0000000000000000_0000000000000000_0000000000000000nat,
{
    lemma2_to64();
    lemma2_to64_rest();
    lemma_pow2_843();
    lemma_pow2_times(843, 5, 0x20);
}

/// The value of `2^852`.
pub proof fn lemma_pow2_852()
    ensures
        pow2(852) == 0x100000_0000000000000000_0000000000000000_0000000000000000_0000000000000000_0000000000000000_0000000000000000_0000000000000000_0000000000000000_0000000000000000_0000000000000000_0000000000000000_0000000000000000_0000000000000000nat,
{
    lemma2_to64();
    lemma2_to64_rest();
    lemma_pow2_848();
    lemma_pow2_times(848, 4, 0x10);
}

/// The value of `2^858`.
pub proof fn lemma_pow2_858()
    ensures
        pow2(858) == 0x4000000_0000000000000000_0000000000000000_0000000000000000_0000000000000000_0000000000000000_0000000000000000_0000000000000000_0000000000000000_0000000000000000_0000000000000000_0000000000000000_0000000000000000_0000000000000000nat,
{
    lemma2_to64();
    lemma2_to64_rest();
    lemma_pow2_852();
    lemma_pow2_times(852, 6, 0x40);
}

/// The value of `2^870`.
pub proof fn lemma_pow2_870()
    ensures
        pow2(870) == 0x4000000000_0000000000000000_0000000000000000_0000000000000000_0000000000000000_0000000000000000_0000000000000000_0000000000000000_0000000000000000_0000000000000000_0000000000000000_0000000000000000_0000000000000000_0000000000000000nat,
{
    lemma2_to64();
    lemma2_to64_rest();
    lemma_pow2_858();
    lemma_pow2_times(858, 12, 0x1000);
}

/// The value of `2^875`.
pub proof fn lemma_pow2_875()
    ensures
        pow2(875) == 0x80000000000_0000000000000000_0000000000000000_0000000000000000_0000000000000000_0000000000000000_0000000000000000_0000000000000000_0000000000000000_0000000000000000_0000000000000000_0000000000000000_0000000000000000_0000000000000000nat,
{
    lemma2_to64();
    lemma2_to64_rest();
    lemma_pow2_870();
    lemma_pow2_times(870, 5, 0x20);
}

/// The value of `2^879`.
pub proof fn lemma_pow2_879()
    ensures
        pow2(879) == 0x800000000000_0000000000000000_0000000000000000_0000000000000000_0000000000000000_0000000000000000_0000000000000000_0000000000000000_0000000000000000_0000000000000000_0000000000000000_0000000000000000_0000000000000000_0000000000000000nat,
{
    lemma2_to64();
    lemma2_to64_rest();
    lemma_pow2_875();
    lemma_pow2_times(875, 4, 0x10);
}

/// The value of `2^884`.
pub proof fn lemma_pow2_884()
    ensures
        pow2(884) == 0x10000000000000_0000000000000000_0000000000000000_0000000000000000_0000000000000000_0000000000000000_0000000000000000_0000000000000000_0000000000000000_0000000000000000_0000000000000000_0000000000000000_0000000000000000_0000000000000000nat,
{
    lemma2_to64();
    lemma2_to64_rest();
    lemma_pow2_879();
    lemma_pow2_times(879, 5, 0x20);
}

/// The value of `2^896`.
pub proof fn lemma_pow2_896()
    ensures
        pow2(896) == 0x1_0000000000000000_0000000000000000_0000000000000000_0000000000000000_0000000000000000_0000000000000000_0000000000000000_0000000000000000_0000000000000000_0000000000000000_0000000000000000_0000000000000000_0000000000000000_0000000000000000nat,
{
    lemma2_to64();
    lemma2_to64_rest();
    lemma_pow2_884();
    lemma_pow2_times(884, 12, 0x1000);
}

/// The value of `2^902`.
pub proof fn lemma_pow2_902()
    ensures
        pow2(902) == 0x40_0000000000000000_0000000000000000_0000000000000000_0000000000000000_0000000000000000_0000000000000000_0000000000000000_0000000000000000_0000000000000000_0000000000000000_0000000000000000_0000000000000000_0000000000000000_0000000000000000nat,
{
    lemma2_to64();
    lemma2_to64_rest();
    lemma_pow2_896();
    lemma_pow2_times(896, 6, 0x40);
}

/// The value of `2^906`.
pub proof fn lemma_pow2_906()
    ensures
        pow2(906) == 0x400_0000000000000000_0000000000000000_0000000000000000_0000000000000000_0000000000000000_0000000000000000_0000000000000000_0000000000000000_0000000000000000_0000000000000000_0000000000000000_0000000000000000_0000000000000000_0000000000000000nat,
{
    lemma2_to64();
    lemma2_to64_rest();
    lemma_pow2_902();
    lemma_pow2_times(902, 4, 0x10);
}

/// The value of `2^911`.
pub proof fn lemma_pow2_911()
    ensures
        pow2(911) == 0x8000_0000000000000000_0000000000000000_0000000000000000_0000000000000000_0000000000000000_0000000000000000_0000000000000000_0000000000000000_0000000000000000_0000000000000000_0000000000000000_0000000000000000_0000000000000000_0000000000000000nat,
{
    lemma2_to64();
    lemma2_to64_rest();
    lemma_pow2_906();
    lemma_pow2_times(906, 5, 0x20);
}

/// The value of `2^923`.
pub proof fn lemma_pow2_923()
    ensures
        pow2(923) == 0x8000000_0000000000000000_0000000000000000_0000000000000000_0000000000000000_0000000000000000_0000000000000000_0000000000000000_0000000000000000_0000000000000000_0000000000000000_0000000000000000_0000000000000000_0000000000000000_0000000000000000nat,
{
    lemma2_to64();
    lemma2_to64_rest();
    lemma_pow2_911();
    lemma_pow2_times(911, 12, 0x1000);
}

/// The value of `2^928`.
pub proof fn lemma_pow2_928()
    ensures
        pow2(928) == 0x100000000_0000000000000000_0000000000000000_0000000000000000_0000000000000000_0000000000000000_0000000000000000_0000000000000000_0000000000000000_0000000000000000_0000000000000000_0000000000000000_0000000000000000_0000000000000000_0000000000000000nat,
{
    lemma2_to64();
    lemma2_to64_rest();
    lemma_pow2_923();
    lemma_pow2_times(923, 5, 0x20);
}

/// The value of `2^932`.
pub proof fn lemma_pow2_932()
    ensures
        pow2(932) == 0x1000000000_0000000000000000_0000000000000000_0000000000000000_0000000000000000_0000000000000000_0000000000000000_0000000000000000_0000000000000000_0000000000000000_0000000000000000_0000000000000000_0000000000000000_0000000000000000_0000000000000000nat,
{
    lemma2_to64();
    lemma2_to64_rest();
    lemma_pow2_928();
    lemma_pow2_times(928, 4, 0x10);
}

/// The value of `2^938`.
pub proof fn lemma_pow2_938()
    ensures
        pow2(938) == 0x40000000000_0000000000000000_0000000000000000_0000000000000000_0000000000000000_0000000000000000_0000000000000000_0000000000000000_0000000000000000_0000000000000000_0000000000000000_0000000000000000_0000000000000000_0000000000000000_0000000000000000nat,
{
    lemma2_to64();
    lemma2_to64_rest();
    lemma_pow2_932();
    lemma_pow2_times(932, 6, 0x40);
}

/// The value of `2^949`.
pub proof fn lemma_pow2_949()
    ensures
        pow2(949) == 0x20000000000000_0000000000000000_0000000000000000_0000000000000000_0000000000000000_0000000000000000_0000000000000000_0000000000000000_0000000000000000_0000000000000000_0000000000000000_0000000000000000_0000000000000000_0000000000000000_0000000000000000nat,
{
    lemma2_to64();
    lemma2_to64_rest();
    lemma_pow2_938();
    lemma_pow2_times(938, 11, 0x800);
}

/// The value of `2^955`.
pub proof fn lemma_pow2_955()
    ensures
        pow2(955) == 0x800000000000000_0000000000000000_0000000000000000_0000000000000000_0000000000000000_0000000000000000_0000000000000000_0000000000000000_0000000000000000_0000000000000000_0000000000000000_0000000000000000_0000000000000000_0000000000000000_0000000000000000nat,
{
    lemma2_to64();
    lemma2_to64_rest();
    lemma_pow2_949();
    lemma_pow2_times(949, 6, 0x40);
}

/// The value of `2^959`.
pub proof fn lemma_pow2_959()
    ensures
        pow2(959) == 0x8000000000000000_0000000000000000_0000000000000000_0000000000000000_0000000000000000_0000000000000000_0000000000000000_0000000000000000_0000000000000000_0000000000000000_0000000000000000_0000000000000000_0000000000000000_0000000000000000_0000000000000000nat,
{
    lemma2_to64();
    lemma2_to64_rest();
    lemma_pow2_955();
    lemma_pow2_times(955, 4, 0x10);
}

/// The value of `2^964`.
pub proof fn lemma_pow2_964()
    ensures
        pow2(964) == 0x10_0000000000000000_0000000000000000_0000000000000000_0000000000000000_0000000000000000_0000000000000000_0000000000000000_0000000000000000_0000000000000000_0000000000000000_0000000000000000_0000000000000000_0000000000000000_0000000000000000_0000000000000000nat,
{
    lemma2_to64();
    lemma2_to64_rest();
    lemma_pow2_959();
    lemma_pow2_times(959, 5, 0x20);
}

/// The value of `2^976`.
pub proof fn lemma_pow2_976()
    ensures
        pow2(976) == 0x10000_0000000000000000_0000000000000000_0000000000000000_0000000000000000_0000000000000000_0000000000000000_0000000000000000_0000000000000000_0000000000000000_0000000000000000_0000000000000000_0000000000000000_0000000000000000_0000000000000000_0000000000000000nat,
{
    lemma2_to64();
    lemma2_to64_rest();
    lemma_pow2_964();
    lemma_pow2_times(964, 12, 0x1000);
}

/// The value of `2^981`.
pub proof fn lemma_pow2_981()
    ensures
        pow2(981) == 0x200000_0000000000000000_0000000000000000_0000000000000000_0000000000000000_0000000000000000_0000000000000000_0000000000000000_0000000000000000_0000000000000000_0000000000000000_0000000000000000_0000000000000000_0000000000000000_0000000000000000_0000000000000000nat,
{
    lemma2_to64();
    lemma2_to64_rest();
    lemma_pow2_976();
    lemma_pow2_times(976, 5, 0x20);
}

/// The value of `2^985`.
pub proof fn lemma_pow2_985()
    ensures
        pow2(985) == 0x2000000_0000000000000000_0000000000000000_0000000000000000_0000000000000000_0000000000000000_0000000000000000_0000000000000000_0000000000000000_0000000000000000_0000000000000000_0000000000000000_0000000000000000_0000000000000000_0000000000000000_0000000000000000nat,
{
    lemma2_to64();
    lemma2_to64_rest();
    lemma_pow2_981();
    lemma_pow2_times(981, 4, 0x10);
}

/// The value of `2^991`.
pub proof fn lemma_pow2_991()
    ensures
        pow2(991) == 0x80000000_0000000000000000_0000000000000000_0000000000000000_0000000000000000_0000000000000000_0000000000000000_0000000000000000_0000000000000000_0000000000000000_0000000000000000_0000000000000000_0000000000000000_0000000000000000_0000000000000000_0000000000000000nat,
{
    lemma2_to64();
    lemma2_to64_rest();
    lemma_pow2_985();
    lemma_pow2_times(985, 6, 0x40);
}

/// The value of `2^1003`.
pub proof fn lemma_pow2_1003()
    ensures
        pow2(1003) == 0x80000000000_0000000000000000_0000000000000000_0000000000000000_0000000000000000_0000000000000000_0000000000000000_0000000000000000_0000000000000000_0000000000000000_0000000000000000_0000000000000000_0000000000000000_0000000000000000_0000000000000000_0000000000000000nat,
{
    lemma2_to64();
    lemma2_to64_rest();
    lemma_pow2_991();
    lemma_pow2_times(991, 12, 0x1000);
}

/// The value of `2^1008`.
pub proof fn lemma_pow2_1008()
    ensures
        pow2(1008) == 0x1000000000000_0000000000000000_0000000000000000_0000000000000000_0000000000000000_0000000000000000_0000000000000000_0000000000000000_0000000000000000_0000000000000000_0000000000000000_0000000000000000_0000000000000000_0000000000000000_0000000000000000_0000000000000000nat,
{
    lemma2_to64();
    lemma2_to64_rest();
    lemma_pow2_1003();
    lemma_pow2_times(1003, 5, 0x20);
}

/// The value of `2^1012`.
pub proof fn lemma_pow2_1012()
    ensures
        pow2(1012) == 0x10000000000000_0000000000000000_0000000000000000_0000000000000000_0000000000000000_0000000000000000_0000000000000000_0000000000000000_0000000000000000_0000000000000000_0000000000000000_0000000000000000_0000000000000000_0000000000000000_0000000000000000_0000000000000000nat,
{
    lemma2_to64();
    lemma2_to64_rest();
    lemma_pow2_1008();
    lemma_pow2_times(1008, 4, 0x10);
}

/// The value of `2^1017`.
pub proof fn lemma_pow2_1017()
    ensures
        pow2(1017) == 0x200000000000000_0000000000000000_0000000000000000_0000000000000000_0000000000000000_0000000000000000_0000000000000000_0000000000000000_0000000000000000_0000000000000000_0000000000000000_0000000000000000_0000000000000000_0000000000000000_0000000000000000_0000000000000000nat,
{
    lemma2_to64();
    lemma2_to64_rest();
    lemma_pow2_1012();
    lemma_pow2_times(1012, 5, 0x20);
}

/// The value of `2^1029`.
pub proof fn lemma_pow2_1029()
    ensures
        pow2(1029) == 0x20_0000000000000000_0000000000000000_0000000000000000_0000000000000000_0000000000000000_0000000000000000_0000000000000000_0000000000000000_0000000000000000_0000000000000000_0000000000000000_0000000000000000_0000000000000000_0000000000000000_0000000000000000_0000000000000000nat,
{
    lemma2_to64();
    lemma2_to64_rest();
    lemma_pow2_1017();
    lemma_pow2_times(1017, 12, 0x1000);
}

/// The value of `2^1035`.
pub proof fn lemma_pow2_1035()
    ensures
        pow2(1035) == 0x800_0000000000000000_0000000000000000_0000000000000000_0000000000000000_0000000000000000_0000000000000000_0000000000000000_0000000000000000_0000000000000000_0000000000000000_0000000000000000_0000000000000000_0000000000000000_0000000000000000_0000000000000000_0000000000000000nat,
{
    lemma2_to64();
    lemma2_to64_rest();
    lemma_pow2_1029();
    lemma_pow2_times(1029, 6, 0x40);
}

/// The value of `2^1038`.
pub proof fn lemma_pow2_1038()
    ensures
        pow2(1038) == 0x4000_0000000000000000_0000000000000000_0000000000000000_0000000000000000_0000000000000000_0000000000000000_0000000000000000_0000000000000000_0000000000000000_0000000000000000_0000000000000000_0000000000000000_0000000000000000_0000000000000000_0000000000000000_0000000000000000nat,
{
    lemma2_to64();
    lemma2_to64_rest();
    lemma_pow2_1035();
    lemma_pow2_times(1035, 3, 0x8);
}

/// The value of `2^1044`.
pub proof fn lemma_pow2_1044()
    ensures
        pow2(1044) == 0x100000_0000000000000000_0000000000000000_0000000000000000_0000000000000000_0000000000000000_0000000000000000_0000000000000000_0000000000000000_0000000000000000_0000000000000000_0000000000000000_0000000000000000_0000000000000000_0000000000000000_0000000000000000_0000000000000000nat,
{
    lemma2_to64();
    lemma2_to64_rest();
    lemma_pow2_1038();
    lemma_pow2_times(1038, 6, 0x40);
}

/// The value of `2^1056`.
pub proof fn lemma_pow2_1056()
    ensures
        pow2(1056) == 0x100000000_0000000000000000_0000000000000000_0000000000000000_0000000000000000_0000000000000000_0000000000000000_0000000000000000_0000000000000000_0000000000000000_0000000000000000_0000000000000000_0000000000000000_0000000000000000_0000000000000000_0000000000000000_0000000000000000nat,
{
    lemma2_to64();
    lemma2_to64_rest();
    lemma_pow2_1044();
    lemma_pow2_times(1044, 12, 0x1000);
}

/// The value of `2^1061`.
pub proof fn lemma_pow2_1061()
    ensures
        pow2(1061) == 0x2000000000_0000000000000000_0000000000000000_0000000000000000_0000000000000000_0000000000000000_0000000000000000_0000000000000000_0000000000000000_0000000000000000_0000000000000000_0000000000000000_0000000000000000_0000000000000000_0000000000000000_0000000000000000_0000000000000000nat,
{
    lemma2_to64();
    lemma2_to64_rest();
    lemma_pow2_1056();
    lemma_pow2_times(1056, 5, 0x20);
}

/// The value of `2^1065`.
pub proof fn lemma_pow2_1065()
    ensures
        pow2(1065) == 0x20000000000_0000000000000000_0000000000000000_0000000000000000_0000000000000000_0000000000000000_0000000000000000_0000000000000000_0000000000000000_0000000000000000_0000000000000000_0000000000000000_0000000000000000_0000000000000000_0000000000000000_0000000000000000_0000000000000000nat,
{
    lemma2_to64();
    lemma2_to64_rest();
    lemma_pow2_1061();
    lemma_pow2_times(1061, 4, 0x10);
}

/// The value of `2^1070`.
pub proof fn lemma_pow2_1070()
    ensures
        pow2(1070) == 0x400000000000_0000000000000000_0000000000000000_0000000000000000_0000000000000000_0000000000000000_0000000000000000_0000000000000000_0000000000000000_0000000000000000_0000000000000000_0000000000000000_0000000000000000_0000000000000000_0000000000000000_0000000000000000_0000000000000000nat,
{
    lemma2_to64();
    lemma2_to64_rest();
    lemma_pow2_1065();
    lemma_pow2_times(1065, 5, 0x20);
}

/// The value of `2^1082`.
pub proof fn lemma_pow2_1082()
    ensures
        pow2(1082) == 0x400000000000000_0000000000000000_0000000000000000_0000000000000000_0000000000000000_0000000000000000_0000000000000000_0000000000000000_0000000000000000_0000000000000000_0000000000000000_0000000000000000_0000000000000000_0000000000000000_0000000000000000_0000000000000000_0000000000000000nat,
{
    lemma2_to64();
    lemma2_to64_rest();
    lemma_pow2_1070();
    lemma_pow2_times(1070, 12, 0x1000);
}

/// The value of `2^1088`.
pub proof fn lemma_pow2_1088()
    ensures
        pow2(1088) == 0x1_0000000000000000_0000000000000000_0000000000000000_0000000000000000_0000000000000000_0000000000000000_0000000000000000_0000000000000000_0000000000000000_0000000000000000_0000000000000000_0000000000000000_0000000000000000_0000000000000000_0000000000000000_0000000000000000_0000000000000000nat,
{
    lemma2_to64();
    lemma2_to64_rest();
    lemma_pow2_1082();
    lemma_pow2_times(1082, 6, 0x40);
}

/// The value of `2^1097`.
pub proof fn lemma_pow2_1097()
    ensures
        pow2(1097) == 0x200_0000000000000000_0000000000000000_0000000000000000_0000000000000000_0000000000000000_0000000000000000_0000000000000000_0000000000000000_0000000000000000_0000000000000000_0000000000000000_0000000000000000_0000000000000000_0000000000000000_0000000000000000_0000000000000000_0000000000000000nat,
{
    lemma2_to64();
    lemma2_to64_rest();
    lemma_pow2_1088();
    lemma_pow2_times(1088, 9, 0x200);
}

/// The value of `2^1109`.
pub proof fn lemma_pow2_1109()
    ensures
        pow2(1109) == 0x200000_0000000000000000_0000000000000000_0000000000000000_0000000000000000_0000000000000000_0000000000000000_0000000000000000_0000000000000000_0000000000000000_0000000000000000_0000000000000000_0000000000000000_0000000000000000_0000000000000000_0000000000000000_0000000000000000_0000000000000000nat,
{
    lemma2_to64();
    lemma2_to64_rest();
    lemma_pow2_1097();
    lemma_pow2_times(1097, 12, 0x1000);
}

/// The value of `2^1114`.
pub proof fn lemma_pow2_1114()
    ensures
        pow2(1114) == 0x4000000_0000000000000000_0000000000000000_0000000000000000_0000000000000000_0000000000000000_0000000000000000_0000000000000000_0000000000000000_0000000000000000_0000000000000000_0000000000000000_0000000000000000_0000000000000000_0000000000000000_0000000000000000_0000000000000000_0000000000000000nat,
{
    lemma2_to64();
    lemma2_to64_rest();
    lemma_pow2_1109();
    lemma_pow2_times(1109, 5, 0x20);
}

/// The value of `2^1135`.
pub proof fn lemma_pow2_1135()
    ensures
        pow2(1135) == 0x800000000000_0000000000000000_0000000000000000_0000000000000000_0000000000000000_0000000000000000_0000000000000000_0000000000000000_0000000000000000_0000000000000000_0000000000000000_0000000000000000_0000000000000000_0000000000000000_0000000000000000_0000000000000000_0000000000000000_0000000000000000nat,
{
    lemma2_to64();
    lemma2_to64_rest();
    lemma_pow2_1114();
    lemma_pow2_times(1114, 21, 0x200000);
}

/// The value of `2^1141`.
pub proof fn lemma_pow2_1141()
    ensures
        pow2(1141) == 0x20000000000000_0000000000000000_0000000000000000_0000000000000000_0000000000000000_0000000000000000_0000000000000000_0000000000000000_0000000000000000_0000000000000000_0000000000000000_0000000000000000_0000000000000000_0000000000000000_0000000000000000_0000000000000000_0000000000000000_0000000000000000nat,
{
    lemma2_to64();
    lemma2_to64_rest();
    lemma_pow2_1135();
    lemma_pow2_times(1135, 6, 0x40);
}

/// The value of `2^1162`.
pub proof fn lemma_pow2_1162()
    ensures
        pow2(1162) == 0x400_0000000000000000_0000000000000000_0000000000000000_0000000000000000_0000000000000000_0000000000000000_0000000000000000_0000000000000000_0000000000000000_0000000000000000_0000000000000000_0000000000000000_0000000000000000_0000000000000000_0000000000000000_0000000000000000_0000000000000000_0000000000000000nat,
{
    lemma2_to64();
    lemma2_to64_rest();
    lemma_pow2_1141();
    lemma_pow2_times(1141, 21, 0x200000);
}

/// The value of `2^1167`.
pub proof fn lemma_pow2_1167()
    ensures
        pow2(1167) == 0x8000_0000000000000000_0000000000000000_0000000000000000_0000000000000000_0000000000000000_0000000000000000_0000000000000000_0000000000000000_0000000000000000_0000000000000000_0000000000000000_0000000000000000_0000000000000000_0000000000000000_0000000000000000_0000000000000000_0000000000000000_0000000000000000nat,
{
    lemma2_to64();
    lemma2_to64_rest();
    lemma_pow2_1162();
    lemma_pow2_times(1162, 5, 0x20);
}

/// The value of `2^1189`.
pub proof fn lemma_pow2_1189()
    ensures
        pow2(1189) == 0x2000000000_0000000000000000_0000000000000000_0000000000000000_0000000000000000_0000000000000000_0000000000000000_0000000000000000_0000000000000000_0000000000000000_0000000000000000_0000000000000000_0000000000000000_0000000000000000_0000000000000000_0000000000000000_0000000000000000_0000000000000000_0000000000000000nat,
{
    lemma2_to64();
    lemma2_to64_rest();
    lemma_pow2_1167();
    lemma_pow2_times(1167, 22, 0x400000);
}

/// The value of `2^1194`.
pub proof fn lemma_pow2_1194()
    ensures
        pow2(1194) == 0x40000000000_0000000000000000_0000000000000000_0000000000000000_0000000000000000_0000000000000000_0000000000000000_0000000000000000_0000000000000000_0000000000000000_0000000000000000_0000000000000000_0000000000000000_0000000000000000_0000000000000000_0000000000000000_0000000000000000_0000000000000000_0000000000000000nat,
{
    lemma2_to64();
    lemma2_to64_rest();
    lemma_pow2_1189();
    lemma_pow2_times(1189, 5, 0x20);
}

/// The value of `2^1221`.
pub proof fn lemma_pow2_1221()
    ensures
        pow2(1221) == 0x20_0000000000000000_0000000000000000_0000000000000000_0000000000000000_0000000000000000_0000000000000000_0000000000000000_0000000000000000_0000000000000000_0000000000000000_0000000000000000_0000000000000000_0000000000000000_0000000000000000_0000000000000000_0000000000000000_0000000000000000_0000000000000000_0000000000000000nat,
{
    lemma2_to64();
    lemma2_to64_rest();
    lemma_pow2_1194();
    lemma_pow2_times(1194, 27, 0x8000000);
}

/// The value of `10^4`.
pub proof fn lemma_pow10_4()
    ensures
        pow10(4) == 10000nat,
{
    lemma_pow10_values();
}

/// The value of `10^12`.
pub proof fn lemma_pow10_12()
    ensures
        pow10(12) == 1000000000000nat,
{
    lemma_pow10_values();
    lemma_pow10_4();
    lemma_pow10_times(4, 8, 100_000_000);
}

/// The value of `10^20`.
pub proof fn lemma_pow10_20()
    ensures
        pow10(20) == 100000000000000000000nat,
{
    lemma_pow10_values();
    lemma_pow10_12();
    lemma_pow10_times(12, 8, 100_000_000);
}

/// The value of `10^28`.
pub proof fn lemma_pow10_28()
    ensures
        pow10(28) == 10000000000000000000000000000nat,
{
    lemma_pow10_values();
    lemma_pow10_20();
    lemma_pow10_times(20, 8, 100_000_000);
}

/// The value of `10^36`.
pub proof fn lemma_pow10_36()
    ensures
        pow10(36) == 1000000000000000000000000000000000000nat,
{
    lemma_pow10_values();
    lemma_pow10_28();
    lemma_pow10_times(28, 8, 100_000_000);
}

/// The value of `10^44`.
pub proof fn lemma_pow10_44()
    ensures
        pow10(44) == 100000000000000000000000000000000000000000000nat,
{
    lemma_pow10_values();
    lemma_pow10_36();
    lemma_pow10_times(36, 8, 100_000_000);
}

/// The value of `10^52`.
pub proof fn lemma_pow10_52()
    ensures
        pow10(52) == 10000000000000000000000000000000000000000000000000000nat,
{
    lemma_pow10_values();
    lemma_pow10_44();
    lemma_pow10_times(44, 8, 100_000_000);
}

/// The value of `10^60`.
pub proof fn lemma_pow10_60()
    ensures
        pow10(60) == 1000000000000000000000000000000000000000000000000000000000000nat,
{
    lemma_pow10_values();
    lemma_pow10_52();
    lemma_pow10_times(52, 8, 100_000_000);
}

/// The value of `10^68`.
pub proof fn lemma_pow10_68()
    ensures
        pow10(68) == 100000000000000000000000000000000000000000000000000000000000000000000nat,
{
    lemma_pow10_values();
    lemma_pow10_60();
    lemma_pow10_times(60, 8, 100_000_000);
}

/// The value of `10^76`.
pub proof fn lemma_pow10_76()
    ensures
        pow10(76) == 10000000000000000000000000000000000000000000000000000000000000000000000000000nat,
{
    lemma_pow10_values();
    lemma_pow10_68();
    lemma_pow10_times(68, 8, 100_000_000);
}

/// The value of `10^84`.
pub proof fn lemma_pow10_84()
    ensures
        pow10(84) == 1000000000000000000000000000000000000000000000000000000000000000000000000000000000000nat,
{
    lemma_pow10_values();
    lemma_pow10_76();
    lemma_pow10_times(76, 8, 100_000_000);
}

/// The value of `10^92`.
pub proof fn lemma_pow10_92()
    ensures
        pow10(92) == 100000000000000000000000000000000000000000000000000000000000000000000000000000000000000000000nat,
{
    lemma_pow10_values();
    lemma_pow10_84();
    lemma_pow10_times(84, 8, 100_000_000);
}

/// The value of `10^100`.
pub proof fn lemma_pow10_100()
    ensures
        pow10(100) == 10000000000000000000000000000000000000000000000000000000000000000000000000000000000000000000000000000nat,
{
    lemma_pow10_values();
    lemma_pow10_92();
    lemma_pow10_times(92, 8, 100_000_000);
}

/// The value of `10^108`.
pub proof fn lemma_pow10_108()
    ensures
        pow10(108) == 1000000000000000000000000000000000000000000000000000000000000000000000000000000000000000000000000000000000000nat,
{
    lemma_pow10_values();
    lemma_pow10_100();
    lemma_pow10_times(100, 8, 100_000_000);
}

/// The value of `10^116`.
pub proof fn lemma_pow10_116()
    ensures
        pow10(116) == 100000000000000000000000000000000000000000000000000000000000000000000000000000000000000000000000000000000000000000000nat,
{
    lemma_pow10_values();
    lemma_pow10_108();
    lemma_pow10_times(108, 8, 100_000_000);
}

/// The value of `10^124`.
pub proof fn lemma_pow10_124()
    ensures
        pow10(124) == 10000000000000000000000000000000000000000000000000000000000000000000000000000000000000000000000000000000000000000000000000000nat,
{
    lemma_pow10_values();
    lemma_pow10_116();
    lemma_pow10_times(116, 8, 100_000_000);
}

/// The value of `10^132`.
pub proof fn lemma_pow10_132()
    ensures
        pow10(132) == 1000000000000000000000000000000000000000000000000000000000000000000000000000000000000000000000000000000000000000000000000000000000000nat,
{
    lemma_pow10_values();
    lemma_pow10_124();
    lemma_pow10_times(124, 8, 100_000_000);
}

/// The value of `10^140`.
pub proof fn lemma_pow10_140()
    ensures
        pow10(140) == 100000000000000000000000000000000000000000000000000000000000000000000000000000000000000000000000000000000000000000000000000000000000000000000nat,
{
    lemma_pow10_values();
    lemma_pow10_132();
    lemma_pow10_times(132, 8, 100_000_000);
}

/// The value of `10^148`.
pub proof fn lemma_pow10_148()
    ensures
        pow10(148) == 10000000000000000000000000000000000000000000000000000000000000000000000000000000000000000000000000000000000000000000000000000000000000000000000000000nat,
{
    lemma_pow10_values();
    lemma_pow10_140();
    lemma_pow10_times(140, 8, 100_000_000);
}

/// The value of `10^156`.
pub proof fn lemma_pow10_156()
    ensures
        pow10(156) == 1000000000000000000000000000000000000000000000000000000000000000000000000000000000000000000000000000000000000000000000000000000000000000000000000000000000000nat,
{
    lemma_pow10_values();
    lemma_pow10_148();
    lemma_pow10_times(148, 8, 100_000_000);
}

/// The value of `10^164`.
pub proof fn lemma_pow10_164()
    ensures
        pow10(164) == 100000000000000000000000000000000000000000000000000000000000000000000000000000000000000000000000000000000000000000000000000000000000000000000000000000000000000000000nat,
{
    lemma_pow10_values();
    lemma_pow10_156();
    lemma_pow10_times(156, 8, 100_000_000);
}

/// The value of `10^172`.
pub proof fn lemma_pow10_172()
    ensures
        pow10(172) == 10000000000000000000000000000000000000000000000000000000000000000000000000000000000000000000000000000000000000000000000000000000000000000000000000000000000000000000000000000nat,
{
    lemma_pow10_values();
    lemma_pow10_164();
    lemma_pow10_times(164, 8, 100_000_000);
}

/// The value of `10^180`.
pub proof fn lemma_pow10_180()
    ensures
        pow10(180) == 1000000000000000000000000000000000000000000000000000000000000000000000000000000000000000000000000000000000000000000000000000000000000000000000000000000000000000000000000000000000000nat,
{
    lemma_pow10_values();
    lemma_pow10_172();
    lemma_pow10_times(172, 8, 100_000_000);
}

/// The value of `10^188`.
pub proof fn lemma_pow10_188()
    ensures
        pow10(188) == 100000000000000000000000000000000000000000000000000000000000000000000000000000000000000000000000000000000000000000000000000000000000000000000000000000000000000000000000000000000000000000000nat,
{
    lemma_pow10_values();
    lemma_pow10_180();
    lemma_pow10_times(180, 8, 100_000_000);
}

/// The value of `10^196`.
pub proof fn lemma_pow10_196()
    ensures
        pow10(196) == 10000000000000000000000000000000000000000000000000000000000000000000000000000000000000000000000000000000000000000000000000000000000000000000000000000000000000000000000000000000000000000000000000000nat,
{
    lemma_pow10_values();
    lemma_pow10_188();
    lemma_pow10_times(188, 8, 100_000_000);
}

/// The value of `10^204`.
pub proof fn lemma_pow10_204()
    ensures
        pow10(204) == 1000000000000000000000000000000000000000000000000000000000000000000000000000000000000000000000000000000000000000000000000000000000000000000000000000000000000000000000000000000000000000000000000000000000000nat,
{
    lemma_pow10_values();
    lemma_pow10_196();
    lemma_pow10_times(196, 8, 100_000_000);
}

/// The value of `10^212`.
pub proof fn lemma_pow10_212()
    ensures
        pow10(212) == 100000000000000000000000000000000000000000000000000000000000000000000000000000000000000000000000000000000000000000000000000000000000000000000000000000000000000000000000000000000000000000000000000000000000000000000nat,
{
    lemma_pow10_values();
    lemma_pow10_204();
    lemma_pow10_times(204, 8, 100_000_000);
}

/// The value of `10^220`.
pub proof fn lemma_pow10_220()
    ensures
        pow10(220) == 10000000000000000000000000000000000000000000000000000000000000000000000000000000000000000000000000000000000000000000000000000000000000000000000000000000000000000000000000000000000000000000000000000000000000000000000000000nat,
{
    lemma_pow10_values();
    lemma_pow10_212();
    lemma_pow10_times(212, 8, 100_000_000);
}

/// The value of `10^228`.
pub proof fn lemma_pow10_228()
    ensures
        pow10(228) == 1000000000000000000000000000000000000000000000000000000000000000000000000000000000000000000000000000000000000000000000000000000000000000000000000000000000000000000000000000000000000000000000000000000000000000000000000000000000000nat,
{
    lemma_pow10_values();
    lemma_pow10_220();
    lemma_pow10_times(220, 8, 100_000_000);
}

/// The value of `10^236`.
pub proof fn lemma_pow10_236()
    ensures
        pow10(236) == 100000000000000000000000000000000000000000000000000000000000000000000000000000000000000000000000000000000000000000000000000000000000000000000000000000000000000000000000000000000000000000000000000000000000000000000000000000000000000000000nat,
{
    lemma_pow10_values();
    lemma_pow10_228();
    lemma_pow10_times(228, 8, 100_000_000);
}

/// The value of `10^244`.
pub proof fn lemma_pow10_244()
    ensures
        pow10(244) == 10000000000000000000000000000000000000000000000000000000000000000000000000000000000000000000000000000000000000000000000000000000000000000000000000000000000000000000000000000000000000000000000000000000000000000000000000000000000000000000000000000nat,
{
    lemma_pow10_values();
    lemma_pow10_236();
    lemma_pow10_times(236, 8, 100_000_000);
}

/// The value of `10^252`.
pub proof fn lemma_pow10_252()
    ensures
        pow10(252) == 1000000000000000000000000000000000000000000000000000000000000000000000000000000000000000000000000000000000000000000000000000000000000000000000000000000000000000000000000000000000000000000000000000000000000000000000000000000000000000000000000000000000000nat,
{
    lemma_pow10_values();
    lemma_pow10_244();
    lemma_pow10_times(244, 8, 100_000_000);
}

/// The value of `10^260`.
pub proof fn lemma_pow10_260()
    ensures
        pow10(260) == 100000000000000000000000000000000000000000000000000000000000000000000000000000000000000000000000000000000000000000000000000000000000000000000000000000000000000000000000000000000000000000000000000000000000000000000000000000000000000000000000000000000000000000000nat,
{
    lemma_pow10_values();
    lemma_pow10_252();
    lemma_pow10_times(252, 8, 100_000_000);
}

/// The value of `10^268`.
pub proof fn lemma_pow10_268()
    ensures
        pow10(268) == 10000000000000000000000000000000000000000000000000000000000000000000000000000000000000000000000000000000000000000000000000000000000000000000000000000000000000000000000000000000000000000000000000000000000000000000000000000000000000000000000000000000000000000000000000000nat,
{
    lemma_pow10_values();
    lemma_pow10_260();
    lemma_pow10_times(260, 8, 100_000_000);
}

/// The value of `10^276`.
pub proof fn lemma_pow10_276()
    ensures
        pow10(276) == 1000000000000000000000000000000000000000000000000000000000000000000000000000000000000000000000000000000000000000000000000000000000000000000000000000000000000000000000000000000000000000000000000000000000000000000000000000000000000000000000000000000000000000000000000000000000000nat,
{
    lemma_pow10_values();
    lemma_pow10_268();
    lemma_pow10_times(268, 8, 100_000_000);
}

/// The value of `10^284`.
pub proof fn lemma_pow10_284()
    ensures
        pow10(284) == 100000000000000000000000000000000000000000000000000000000000000000000000000000000000000000000000000000000000000000000000000000000000000000000000000000000000000000000000000000000000000000000000000000000000000000000000000000000000000000000000000000000000000000000000000000000000000000000nat,
{
    lemma_pow10_values();
    lemma_pow10_276();
    lemma_pow10_times(276, 8, 100_000_000);
}

/// The value of `10^292`.
pub proof fn lemma_pow10_292()
    ensures
        pow10(292) == 10000000000000000000000000000000000000000000000000000000000000000000000000000000000000000000000000000000000000000000000000000000000000000000000000000000000000000000000000000000000000000000000000000000000000000000000000000000000000000000000000000000000000000000000000000000000000000000000000000nat,
{
    lemma_pow10_values();
    lemma_pow10_284();
    lemma_pow10_times(284, 8, 100_000_000);
}

/// The value of `10^300`.
pub proof fn lemma_pow10_300()
    ensures
        pow10(300) == 1000000000000000000000000000000000000000000000000000000000000000000000000000000000000000000000000000000000000000000000000000000000000000000000000000000000000000000000000000000000000000000000000000000000000000000000000000000000000000000000000000000000000000000000000000000000000000000000000000000000000nat,
{
    lemma_pow10_values();
    lemma_pow10_292();
    lemma_pow10_times(292, 8, 100_000_000);
}

/// The value of `10^308`.
pub proof fn lemma_pow10_308()
    ensures
        pow10(308) == 100000000000000000000000000000000000000000000000000000000000000000000000000000000000000000000000000000000000000000000000000000000000000000000000000000000000000000000000000000000000000000000000000000000000000000000000000000000000000000000000000000000000000000000000000000000000000000000000000000000000000000000nat,
{
    lemma_pow10_values();
    lemma_pow10_300();
    lemma_pow10_times(300, 8, 100_000_000);
}

/// The value of `10^316`.
pub proof fn lemma_pow10_316()
    ensures
        pow10(316) == 10000000000000000000000000000000000000000000000000000000000000000000000000000000000000000000000000000000000000000000000000000000000000000000000000000000000000000000000000000000000000000000000000000000000000000000000000000000000000000000000000000000000000000000000000000000000000000000000000000000000000000000000000000nat,
{
    lemma_pow10_values();
    lemma_pow10_308();
    lemma_pow10_times(308, 8, 100_000_000);
}

/// The value of `10^324`.
pub proof fn lemma_pow10_324()
    ensures
        pow10(324) == 1000000000000000000000000000000000000000000000000000000000000000000000000000000000000000000000000000000000000000000000000000000000000000000000000000000000000000000000000000000000000000000000000000000000000000000000000000000000000000000000000000000000000000000000000000000000000000000000000000000000000000000000000000000000000nat,
{
    lemma_pow10_values();
    lemma_pow10_316();
    lemma_pow10_times(316, 8, 100_000_000);
}

/// The value of `10^332`.
pub proof fn lemma_pow10_332()
    ensures
        pow10(332) == 100000000000000000000000000000000000000000000000000000000000000000000000000000000000000000000000000000000000000000000000000000000000000000000000000000000000000000000000000000000000000000000000000000000000000000000000000000000000000000000000000000000000000000000000000000000000000000000000000000000000000000000000000000000000000000000nat,
{
    lemma_pow10_values();
    lemma_pow10_324();
    lemma_pow10_times(324, 8, 100_000_000);
}

/// The value of `10^340`.
pub proof fn lemma_pow10_340()
    ensures
        pow10(340) == 10000000000000000000000000000000000000000000000000000000000000000000000000000000000000000000000000000000000000000000000000000000000000000000000000000000000000000000000000000000000000000000000000000000000000000000000000000000000000000000000000000000000000000000000000000000000000000000000000000000000000000000000000000000000000000000000000000nat,
{
    lemma_pow10_values();
    lemma_pow10_332();
    lemma_pow10_times(332, 8, 100_000_000);
}

/// The value of `10^348`.
pub proof fn lemma_pow10_348()
    ensures
        pow10(348) == 1000000000000000000000000000000000000000000000000000000000000000000000000000000000000000000000000000000000000000000000000000000000000000000000000000000000000000000000000000000000000000000000000000000000000000000000000000000000000000000000000000000000000000000000000000000000000000000000000000000000000000000000000000000000000000000000000000000000000nat,
{
    lemma_pow10_values();
    lemma_pow10_340();
    lemma_pow10_times(340, 8, 100_000_000);
}

} // verus!
