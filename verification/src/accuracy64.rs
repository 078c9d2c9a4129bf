//! The cached powers of ten of 64 bits are rounded to nearest.

use crate::diyf64::{spec_cached_power, CACHED_POWERS_E, CACHED_POWERS_F};
use crate::exact::{is_rounded_power, lemma_rounded_power, lemma_rounded_power_small};
use crate::powers::{
    lemma_pow10_4, lemma_pow10_12, lemma_pow10_20, lemma_pow10_28, lemma_pow10_36,
    lemma_pow10_44, lemma_pow10_52, lemma_pow10_60, lemma_pow10_68, lemma_pow10_76,
    lemma_pow10_84, lemma_pow10_92, lemma_pow10_100, lemma_pow10_108, lemma_pow10_116,
    lemma_pow10_124, lemma_pow10_132, lemma_pow10_140, lemma_pow10_148, lemma_pow10_156,
    lemma_pow10_164, lemma_pow10_172, lemma_pow10_180, lemma_pow10_188, lemma_pow10_196,
    lemma_pow10_204, lemma_pow10_212, lemma_pow10_220, lemma_pow10_228, lemma_pow10_236,
    lemma_pow10_244, lemma_pow10_252, lemma_pow10_260, lemma_pow10_268, lemma_pow10_276,
    lemma_pow10_284, lemma_pow10_292, lemma_pow10_300, lemma_pow10_308, lemma_pow10_316,
    lemma_pow10_324, lemma_pow10_332, lemma_pow10_340, lemma_pow10_348, lemma_pow2_2,
    lemma_pow2_25, lemma_pow2_29, lemma_pow2_51, lemma_pow2_55, lemma_pow2_78, lemma_pow2_82,
    lemma_pow2_104, lemma_pow2_108, lemma_pow2_131, lemma_pow2_135, lemma_pow2_158,
    lemma_pow2_161, lemma_pow2_184, lemma_pow2_188, lemma_pow2_211, lemma_pow2_215,
    lemma_pow2_237, lemma_pow2_241, lemma_pow2_264, lemma_pow2_268, lemma_pow2_290,
    lemma_pow2_294, lemma_pow2_317, lemma_pow2_321, lemma_pow2_344, lemma_pow2_347,
    lemma_pow2_370, lemma_pow2_374, lemma_pow2_397, lemma_pow2_401, lemma_pow2_423,
    lemma_pow2_427, lemma_pow2_450, lemma_pow2_454, lemma_pow2_476, lemma_pow2_480,
    lemma_pow2_503, lemma_pow2_507, lemma_pow2_530, lemma_pow2_533, lemma_pow2_556,
    lemma_pow2_560, lemma_pow2_583, lemma_pow2_587, lemma_pow2_609, lemma_pow2_613,
    lemma_pow2_636, lemma_pow2_640, lemma_pow2_662, lemma_pow2_666, lemma_pow2_689,
    lemma_pow2_693, lemma_pow2_716, lemma_pow2_719, lemma_pow2_742, lemma_pow2_746,
    lemma_pow2_769, lemma_pow2_773, lemma_pow2_795, lemma_pow2_799, lemma_pow2_822,
    lemma_pow2_826, lemma_pow2_848, lemma_pow2_852, lemma_pow2_875, lemma_pow2_879,
    lemma_pow2_902, lemma_pow2_906, lemma_pow2_928, lemma_pow2_932, lemma_pow2_955,
    lemma_pow2_959, lemma_pow2_981, lemma_pow2_985, lemma_pow2_1008, lemma_pow2_1012,
    lemma_pow2_1035, lemma_pow2_1038, lemma_pow2_1061, lemma_pow2_1065, lemma_pow2_1088,
    lemma_pow2_1114, lemma_pow2_1141, lemma_pow2_1167, lemma_pow2_1194, lemma_pow2_1221,
};
use vstd::prelude::*;

verus! {

/// The cached power at index 0 is `10^-348` rounded.
proof fn lemma_power_0()
    ensures
        is_rounded_power(CACHED_POWERS_F[0] as int, CACHED_POWERS_E[0] as int, -348),
{
    lemma_pow2_1221();
    lemma_pow10_348();
    lemma_rounded_power(0xfa8fd5a0081c0288, -1220, -348);
}

/// The cached power at index 1 is `10^-340` rounded.
proof fn lemma_power_1()
    ensures
        is_rounded_power(CACHED_POWERS_F[1] as int, CACHED_POWERS_E[1] as int, -340),
{
    lemma_pow2_1194();
    lemma_pow10_340();
    lemma_rounded_power(0xbaaee17fa23ebf76, -1193, -340);
}

/// The cached power at index 2 is `10^-332` rounded.
proof fn lemma_power_2()
    ensures
        is_rounded_power(CACHED_POWERS_F[2] as int, CACHED_POWERS_E[2] as int, -332),
{
    lemma_pow2_1167();
    lemma_pow10_332();
    lemma_rounded_power(0x8b16fb203055ac76, -1166, -332);
}

/// The cached power at index 3 is `10^-324` rounded.
proof fn lemma_power_3()
    ensures
        is_rounded_power(CACHED_POWERS_F[3] as int, CACHED_POWERS_E[3] as int, -324),
{
    lemma_pow2_1141();
    lemma_pow10_324();
    lemma_rounded_power(0xcf42894a5dce35ea, -1140, -324);
}

/// The cached power at index 4 is `10^-316` rounded.
proof fn lemma_power_4()
    ensures
        is_rounded_power(CACHED_POWERS_F[4] as int, CACHED_POWERS_E[4] as int, -316),
{
    lemma_pow2_1114();
    lemma_pow10_316();
    lemma_rounded_power(0x9a6bb0aa55653b2d, -1113, -316);
}

/// The cached power at index 5 is `10^-308` rounded.
proof fn lemma_power_5()
    ensures
        is_rounded_power(CACHED_POWERS_F[5] as int, CACHED_POWERS_E[5] as int, -308),
{
    lemma_pow2_1088();
    lemma_pow10_308();
    lemma_rounded_power(0xe61acf033d1a45df, -1087, -308);
}

/// The cached power at index 6 is `10^-300` rounded.
proof fn lemma_power_6()
    ensures
        is_rounded_power(CACHED_POWERS_F[6] as int, CACHED_POWERS_E[6] as int, -300),
{
    lemma_pow2_1061();
    lemma_pow10_300();
    lemma_rounded_power(0xab70fe17c79ac6ca, -1060, -300);
}

/// The cached power at index 7 is `10^-292` rounded.
proof fn lemma_power_7()
    ensures
        is_rounded_power(CACHED_POWERS_F[7] as int, CACHED_POWERS_E[7] as int, -292),
{
    lemma_pow2_1035();
    lemma_pow10_292();
    lemma_rounded_power(0xff77b1fcbebcdc4f, -1034, -292);
}

/// The cached power at index 8 is `10^-284` rounded.
proof fn lemma_power_8()
    ensures
        is_rounded_power(CACHED_POWERS_F[8] as int, CACHED_POWERS_E[8] as int, -284),
{
    lemma_pow2_1008();
    lemma_pow10_284();
    lemma_rounded_power(0xbe5691ef416bd60c, -1007, -284);
}

/// The cached power at index 9 is `10^-276` rounded.
proof fn lemma_power_9()
    ensures
        is_rounded_power(CACHED_POWERS_F[9] as int, CACHED_POWERS_E[9] as int, -276),
{
    lemma_pow2_981();
    lemma_pow10_276();
    lemma_rounded_power(0x8dd01fad907ffc3c, -980, -276);
}

/// The cached power at index 10 is `10^-268` rounded.
proof fn lemma_power_10()
    ensures
        is_rounded_power(CACHED_POWERS_F[10] as int, CACHED_POWERS_E[10] as int, -268),
{
    lemma_pow2_955();
    lemma_pow10_268();
    lemma_rounded_power(0xd3515c2831559a83, -954, -268);
}

/// The cached power at index 11 is `10^-260` rounded.
proof fn lemma_power_11()
    ensures
        is_rounded_power(CACHED_POWERS_F[11] as int, CACHED_POWERS_E[11] as int, -260),
{
    lemma_pow2_928();
    lemma_pow10_260();
    lemma_rounded_power(0x9d71ac8fada6c9b5, -927, -260);
}

/// The cached power at index 12 is `10^-252` rounded.
proof fn lemma_power_12()
    ensures
        is_rounded_power(CACHED_POWERS_F[12] as int, CACHED_POWERS_E[12] as int, -252),
{
    lemma_pow2_902();
    lemma_pow10_252();
    lemma_rounded_power(0xea9c227723ee8bcb, -901, -252);
}

/// The cached power at index 13 is `10^-244` rounded.
proof fn lemma_power_13()
    ensures
        is_rounded_power(CACHED_POWERS_F[13] as int, CACHED_POWERS_E[13] as int, -244),
{
    lemma_pow2_875();
    lemma_pow10_244();
    lemma_rounded_power(0xaecc49914078536d, -874, -244);
}

/// The cached power at index 14 is `10^-236` rounded.
proof fn lemma_power_14()
    ensures
        is_rounded_power(CACHED_POWERS_F[14] as int, CACHED_POWERS_E[14] as int, -236),
{
    lemma_pow2_848();
    lemma_pow10_236();
    lemma_rounded_power(0x823c12795db6ce57, -847, -236);
}

/// The cached power at index 15 is `10^-228` rounded.
proof fn lemma_power_15()
    ensures
        is_rounded_power(CACHED_POWERS_F[15] as int, CACHED_POWERS_E[15] as int, -228),
{
    lemma_pow2_822();
    lemma_pow10_228();
    lemma_rounded_power(0xc21094364dfb5637, -821, -228);
}

/// The cached power at index 16 is `10^-220` rounded.
proof fn lemma_power_16()
    ensures
        is_rounded_power(CACHED_POWERS_F[16] as int, CACHED_POWERS_E[16] as int, -220),
{
    lemma_pow2_795();
    lemma_pow10_220();
    lemma_rounded_power(0x9096ea6f3848984f, -794, -220);
}

/// The cached power at index 17 is `10^-212` rounded.
proof fn lemma_power_17()
    ensures
        is_rounded_power(CACHED_POWERS_F[17] as int, CACHED_POWERS_E[17] as int, -212),
{
    lemma_pow2_769();
    lemma_pow10_212();
    lemma_rounded_power(0xd77485cb25823ac7, -768, -212);
}

/// The cached power at index 18 is `10^-204` rounded.
proof fn lemma_power_18()
    ensures
        is_rounded_power(CACHED_POWERS_F[18] as int, CACHED_POWERS_E[18] as int, -204),
{
    lemma_pow2_742();
    lemma_pow10_204();
    lemma_rounded_power(0xa086cfcd97bf97f4, -741, -204);
}

/// The cached power at index 19 is `10^-196` rounded.
proof fn lemma_power_19()
    ensures
        is_rounded_power(CACHED_POWERS_F[19] as int, CACHED_POWERS_E[19] as int, -196),
{
    lemma_pow2_716();
    lemma_pow10_196();
    lemma_rounded_power(0xef340a98172aace5, -715, -196);
}

/// The cached power at index 20 is `10^-188` rounded.
proof fn lemma_power_20()
    ensures
        is_rounded_power(CACHED_POWERS_F[20] as int, CACHED_POWERS_E[20] as int, -188),
{
    lemma_pow2_689();
    lemma_pow10_188();
    lemma_rounded_power(0xb23867fb2a35b28e, -688, -188);
}

/// The cached power at index 21 is `10^-180` rounded.
proof fn lemma_power_21()
    ensures
        is_rounded_power(CACHED_POWERS_F[21] as int, CACHED_POWERS_E[21] as int, -180),
{
    lemma_pow2_662();
    lemma_pow10_180();
    lemma_rounded_power(0x84c8d4dfd2c63f3b, -661, -180);
}

/// The cached power at index 22 is `10^-172` rounded.
proof fn lemma_power_22()
    ensures
        is_rounded_power(CACHED_POWERS_F[22] as int, CACHED_POWERS_E[22] as int, -172),
{
    lemma_pow2_636();
    lemma_pow10_172();
    lemma_rounded_power(0xc5dd44271ad3cdba, -635, -172);
}

/// The cached power at index 23 is `10^-164` rounded.
proof fn lemma_power_23()
    ensures
        is_rounded_power(CACHED_POWERS_F[23] as int, CACHED_POWERS_E[23] as int, -164),
{
    lemma_pow2_609();
    lemma_pow10_164();
    lemma_rounded_power(0x936b9fcebb25c996, -608, -164);
}

/// The cached power at index 24 is `10^-156` rounded.
proof fn lemma_power_24()
    ensures
        is_rounded_power(CACHED_POWERS_F[24] as int, CACHED_POWERS_E[24] as int, -156),
{
    lemma_pow2_583();
    lemma_pow10_156();
    lemma_rounded_power(0xdbac6c247d62a584, -582, -156);
}

/// The cached power at index 25 is `10^-148` rounded.
proof fn lemma_power_25()
    ensures
        is_rounded_power(CACHED_POWERS_F[25] as int, CACHED_POWERS_E[25] as int, -148),
{
    lemma_pow2_556();
    lemma_pow10_148();
    lemma_rounded_power(0xa3ab66580d5fdaf6, -555, -148);
}

/// The cached power at index 26 is `10^-140` rounded.
proof fn lemma_power_26()
    ensures
        is_rounded_power(CACHED_POWERS_F[26] as int, CACHED_POWERS_E[26] as int, -140),
{
    lemma_pow2_530();
    lemma_pow10_140();
    lemma_rounded_power(0xf3e2f893dec3f126, -529, -140);
}

/// The cached power at index 27 is `10^-132` rounded.
proof fn lemma_power_27()
    ensures
        is_rounded_power(CACHED_POWERS_F[27] as int, CACHED_POWERS_E[27] as int, -132),
{
    lemma_pow2_503();
    lemma_pow10_132();
    lemma_rounded_power(0xb5b5ada8aaff80b8, -502, -132);
}

/// The cached power at index 28 is `10^-124` rounded.
proof fn lemma_power_28()
    ensures
        is_rounded_power(CACHED_POWERS_F[28] as int, CACHED_POWERS_E[28] as int, -124),
{
    lemma_pow2_476();
    lemma_pow10_124();
    lemma_rounded_power(0x87625f056c7c4a8b, -475, -124);
}

/// The cached power at index 29 is `10^-116` rounded.
proof fn lemma_power_29()
    ensures
        is_rounded_power(CACHED_POWERS_F[29] as int, CACHED_POWERS_E[29] as int, -116),
{
    lemma_pow2_450();
    lemma_pow10_116();
    lemma_rounded_power(0xc9bcff6034c13053, -449, -116);
}

/// The cached power at index 30 is `10^-108` rounded.
proof fn lemma_power_30()
    ensures
        is_rounded_power(CACHED_POWERS_F[30] as int, CACHED_POWERS_E[30] as int, -108),
{
    lemma_pow2_423();
    lemma_pow10_108();
    lemma_rounded_power(0x964e858c91ba2655, -422, -108);
}

/// The cached power at index 31 is `10^-100` rounded.
proof fn lemma_power_31()
    ensures
        is_rounded_power(CACHED_POWERS_F[31] as int, CACHED_POWERS_E[31] as int, -100),
{
    lemma_pow2_397();
    lemma_pow10_100();
    lemma_rounded_power(0xdff9772470297ebd, -396, -100);
}

/// The cached power at index 32 is `10^-92` rounded.
proof fn lemma_power_32()
    ensures
        is_rounded_power(CACHED_POWERS_F[32] as int, CACHED_POWERS_E[32] as int, -92),
{
    lemma_pow2_370();
    lemma_pow10_92();
    lemma_rounded_power(0xa6dfbd9fb8e5b88f, -369, -92);
}

/// The cached power at index 33 is `10^-84` rounded.
proof fn lemma_power_33()
    ensures
        is_rounded_power(CACHED_POWERS_F[33] as int, CACHED_POWERS_E[33] as int, -84),
{
    lemma_pow2_344();
    lemma_pow10_84();
    lemma_rounded_power(0xf8a95fcf88747d94, -343, -84);
}

/// The cached power at index 34 is `10^-76` rounded.
proof fn lemma_power_34()
    ensures
        is_rounded_power(CACHED_POWERS_F[34] as int, CACHED_POWERS_E[34] as int, -76),
{
    lemma_pow2_317();
    lemma_pow10_76();
    lemma_rounded_power(0xb94470938fa89bcf, -316, -76);
}

/// The cached power at index 35 is `10^-68` rounded.
proof fn lemma_power_35()
    ensures
        is_rounded_power(CACHED_POWERS_F[35] as int, CACHED_POWERS_E[35] as int, -68),
{
    lemma_pow2_290();
    lemma_pow10_68();
    lemma_rounded_power(0x8a08f0f8bf0f156b, -289, -68);
}

/// The cached power at index 36 is `10^-60` rounded.
proof fn lemma_power_36()
    ensures
        is_rounded_power(CACHED_POWERS_F[36] as int, CACHED_POWERS_E[36] as int, -60),
{
    lemma_pow2_264();
    lemma_pow10_60();
    lemma_rounded_power(0xcdb02555653131b6, -263, -60);
}

/// The cached power at index 37 is `10^-52` rounded.
proof fn lemma_power_37()
    ensures
        is_rounded_power(CACHED_POWERS_F[37] as int, CACHED_POWERS_E[37] as int, -52),
{
    lemma_pow2_237();
    lemma_pow10_52();
    lemma_rounded_power(0x993fe2c6d07b7fac, -236, -52);
}

/// The cached power at index 38 is `10^-44` rounded.
proof fn lemma_power_38()
    ensures
        is_rounded_power(CACHED_POWERS_F[38] as int, CACHED_POWERS_E[38] as int, -44),
{
    lemma_pow2_211();
    lemma_pow10_44();
    lemma_rounded_power(0xe45c10c42a2b3b06, -210, -44);
}

/// The cached power at index 39 is `10^-36` rounded.
proof fn lemma_power_39()
    ensures
        is_rounded_power(CACHED_POWERS_F[39] as int, CACHED_POWERS_E[39] as int, -36),
{
    lemma_pow2_184();
    lemma_pow10_36();
    lemma_rounded_power(0xaa242499697392d3, -183, -36);
}

/// The cached power at index 40 is `10^-28` rounded.
proof fn lemma_power_40()
    ensures
        is_rounded_power(CACHED_POWERS_F[40] as int, CACHED_POWERS_E[40] as int, -28),
{
    lemma_pow2_158();
    lemma_pow10_28();
    lemma_rounded_power(0xfd87b5f28300ca0e, -157, -28);
}

/// The cached power at index 41 is `10^-20` rounded.
proof fn lemma_power_41()
    ensures
        is_rounded_power(CACHED_POWERS_F[41] as int, CACHED_POWERS_E[41] as int, -20),
{
    lemma_pow2_131();
    lemma_pow10_20();
    lemma_rounded_power(0xbce5086492111aeb, -130, -20);
}

/// The cached power at index 42 is `10^-12` rounded.
proof fn lemma_power_42()
    ensures
        is_rounded_power(CACHED_POWERS_F[42] as int, CACHED_POWERS_E[42] as int, -12),
{
    lemma_pow2_104();
    lemma_pow10_12();
    lemma_rounded_power(0x8cbccc096f5088cc, -103, -12);
}

/// The cached power at index 43 is `10^-4` rounded.
proof fn lemma_power_43()
    ensures
        is_rounded_power(CACHED_POWERS_F[43] as int, CACHED_POWERS_E[43] as int, -4),
{
    lemma_pow2_78();
    lemma_pow10_4();
    lemma_rounded_power(0xd1b71758e219652c, -77, -4);
}

/// The cached power at index 44 is `10^4` rounded.
proof fn lemma_power_44()
    ensures
        is_rounded_power(CACHED_POWERS_F[44] as int, CACHED_POWERS_E[44] as int, 4),
{
    lemma_pow2_51();
    lemma_pow10_4();
    lemma_rounded_power_small(0x9c40000000000000, -50, 4, 0x8000000000000, 10000);
}

/// The cached power at index 45 is `10^12` rounded.
proof fn lemma_power_45()
    ensures
        is_rounded_power(CACHED_POWERS_F[45] as int, CACHED_POWERS_E[45] as int, 12),
{
    lemma_pow2_25();
    lemma_pow10_12();
    lemma_rounded_power_small(0xe8d4a51000000000, -24, 12, 0x2000000, 1000000000000);
}

/// The cached power at index 46 is `10^20` rounded.
proof fn lemma_power_46()
    ensures
        is_rounded_power(CACHED_POWERS_F[46] as int, CACHED_POWERS_E[46] as int, 20),
{
    lemma_pow2_2();
    lemma_pow10_20();
    lemma_rounded_power(0xad78ebc5ac620000, 3, 20);
}

/// The cached power at index 47 is `10^28` rounded.
proof fn lemma_power_47()
    ensures
        is_rounded_power(CACHED_POWERS_F[47] as int, CACHED_POWERS_E[47] as int, 28),
{
    lemma_pow2_29();
    lemma_pow10_28();
    lemma_rounded_power(0x813f3978f8940984, 30, 28);
}

/// The cached power at index 48 is `10^36` rounded.
proof fn lemma_power_48()
    ensures
        is_rounded_power(CACHED_POWERS_F[48] as int, CACHED_POWERS_E[48] as int, 36),
{
    lemma_pow2_55();
    lemma_pow10_36();
    lemma_rounded_power(0xc097ce7bc90715b3, 56, 36);
}

/// The cached power at index 49 is `10^44` rounded.
proof fn lemma_power_49()
    ensures
        is_rounded_power(CACHED_POWERS_F[49] as int, CACHED_POWERS_E[49] as int, 44),
{
    lemma_pow2_82();
    lemma_pow10_44();
    lemma_rounded_power(0x8f7e32ce7bea5c70, 83, 44);
}

/// The cached power at index 50 is `10^52` rounded.
proof fn lemma_power_50()
    ensures
        is_rounded_power(CACHED_POWERS_F[50] as int, CACHED_POWERS_E[50] as int, 52),
{
    lemma_pow2_108();
    lemma_pow10_52();
    lemma_rounded_power(0xd5d238a4abe98068, 109, 52);
}

/// The cached power at index 51 is `10^60` rounded.
proof fn lemma_power_51()
    ensures
        is_rounded_power(CACHED_POWERS_F[51] as int, CACHED_POWERS_E[51] as int, 60),
{
    lemma_pow2_135();
    lemma_pow10_60();
    lemma_rounded_power(0x9f4f2726179a2245, 136, 60);
}

/// The cached power at index 52 is `10^68` rounded.
proof fn lemma_power_52()
    ensures
        is_rounded_power(CACHED_POWERS_F[52] as int, CACHED_POWERS_E[52] as int, 68),
{
    lemma_pow2_161();
    lemma_pow10_68();
    lemma_rounded_power(0xed63a231d4c4fb27, 162, 68);
}

/// The cached power at index 53 is `10^76` rounded.
proof fn lemma_power_53()
    ensures
        is_rounded_power(CACHED_POWERS_F[53] as int, CACHED_POWERS_E[53] as int, 76),
{
    lemma_pow2_188();
    lemma_pow10_76();
    lemma_rounded_power(0xb0de65388cc8ada8, 189, 76);
}

/// The cached power at index 54 is `10^84` rounded.
proof fn lemma_power_54()
    ensures
        is_rounded_power(CACHED_POWERS_F[54] as int, CACHED_POWERS_E[54] as int, 84),
{
    lemma_pow2_215();
    lemma_pow10_84();
    lemma_rounded_power(0x83c7088e1aab65db, 216, 84);
}

/// The cached power at index 55 is `10^92` rounded.
proof fn lemma_power_55()
    ensures
        is_rounded_power(CACHED_POWERS_F[55] as int, CACHED_POWERS_E[55] as int, 92),
{
    lemma_pow2_241();
    lemma_pow10_92();
    lemma_rounded_power(0xc45d1df942711d9a, 242, 92);
}

/// The cached power at index 56 is `10^100` rounded.
proof fn lemma_power_56()
    ensures
        is_rounded_power(CACHED_POWERS_F[56] as int, CACHED_POWERS_E[56] as int, 100),
{
    lemma_pow2_268();
    lemma_pow10_100();
    lemma_rounded_power(0x924d692ca61be758, 269, 100);
}

/// The cached power at index 57 is `10^108` rounded.
proof fn lemma_power_57()
    ensures
        is_rounded_power(CACHED_POWERS_F[57] as int, CACHED_POWERS_E[57] as int, 108),
{
    lemma_pow2_294();
    lemma_pow10_108();
    lemma_rounded_power(0xda01ee641a708dea, 295, 108);
}

/// The cached power at index 58 is `10^116` rounded.
proof fn lemma_power_58()
    ensures
        is_rounded_power(CACHED_POWERS_F[58] as int, CACHED_POWERS_E[58] as int, 116),
{
    lemma_pow2_321();
    lemma_pow10_116();
    lemma_rounded_power(0xa26da3999aef774a, 322, 116);
}

/// The cached power at index 59 is `10^124` rounded.
proof fn lemma_power_59()
    ensures
        is_rounded_power(CACHED_POWERS_F[59] as int, CACHED_POWERS_E[59] as int, 124),
{
    lemma_pow2_347();
    lemma_pow10_124();
    lemma_rounded_power(0xf209787bb47d6b85, 348, 124);
}

/// The cached power at index 60 is `10^132` rounded.
proof fn lemma_power_60()
    ensures
        is_rounded_power(CACHED_POWERS_F[60] as int, CACHED_POWERS_E[60] as int, 132),
{
    lemma_pow2_374();
    lemma_pow10_132();
    lemma_rounded_power(0xb454e4a179dd1877, 375, 132);
}

/// The cached power at index 61 is `10^140` rounded.
proof fn lemma_power_61()
    ensures
        is_rounded_power(CACHED_POWERS_F[61] as int, CACHED_POWERS_E[61] as int, 140),
{
    lemma_pow2_401();
    lemma_pow10_140();
    lemma_rounded_power(0x865b86925b9bc5c2, 402, 140);
}

/// The cached power at index 62 is `10^148` rounded.
proof fn lemma_power_62()
    ensures
        is_rounded_power(CACHED_POWERS_F[62] as int, CACHED_POWERS_E[62] as int, 148),
{
    lemma_pow2_427();
    lemma_pow10_148();
    lemma_rounded_power(0xc83553c5c8965d3d, 428, 148);
}

/// The cached power at index 63 is `10^156` rounded.
proof fn lemma_power_63()
    ensures
        is_rounded_power(CACHED_POWERS_F[63] as int, CACHED_POWERS_E[63] as int, 156),
{
    lemma_pow2_454();
    lemma_pow10_156();
    lemma_rounded_power(0x952ab45cfa97a0b3, 455, 156);
}

/// The cached power at index 64 is `10^164` rounded.
proof fn lemma_power_64()
    ensures
        is_rounded_power(CACHED_POWERS_F[64] as int, CACHED_POWERS_E[64] as int, 164),
{
    lemma_pow2_480();
    lemma_pow10_164();
    lemma_rounded_power(0xde469fbd99a05fe3, 481, 164);
}

/// The cached power at index 65 is `10^172` rounded.
proof fn lemma_power_65()
    ensures
        is_rounded_power(CACHED_POWERS_F[65] as int, CACHED_POWERS_E[65] as int, 172),
{
    lemma_pow2_507();
    lemma_pow10_172();
    lemma_rounded_power(0xa59bc234db398c25, 508, 172);
}

/// The cached power at index 66 is `10^180` rounded.
proof fn lemma_power_66()
    ensures
        is_rounded_power(CACHED_POWERS_F[66] as int, CACHED_POWERS_E[66] as int, 180),
{
    lemma_pow2_533();
    lemma_pow10_180();
    lemma_rounded_power(0xf6c69a72a3989f5c, 534, 180);
}

/// The cached power at index 67 is `10^188` rounded.
proof fn lemma_power_67()
    ensures
        is_rounded_power(CACHED_POWERS_F[67] as int, CACHED_POWERS_E[67] as int, 188),
{
    lemma_pow2_560();
    lemma_pow10_188();
    lemma_rounded_power(0xb7dcbf5354e9bece, 561, 188);
}

/// The cached power at index 68 is `10^196` rounded.
proof fn lemma_power_68()
    ensures
        is_rounded_power(CACHED_POWERS_F[68] as int, CACHED_POWERS_E[68] as int, 196),
{
    lemma_pow2_587();
    lemma_pow10_196();
    lemma_rounded_power(0x88fcf317f22241e2, 588, 196);
}

/// The cached power at index 69 is `10^204` rounded.
proof fn lemma_power_69()
    ensures
        is_rounded_power(CACHED_POWERS_F[69] as int, CACHED_POWERS_E[69] as int, 204),
{
    lemma_pow2_613();
    lemma_pow10_204();
    lemma_rounded_power(0xcc20ce9bd35c78a5, 614, 204);
}

/// The cached power at index 70 is `10^212` rounded.
proof fn lemma_power_70()
    ensures
        is_rounded_power(CACHED_POWERS_F[70] as int, CACHED_POWERS_E[70] as int, 212),
{
    lemma_pow2_640();
    lemma_pow10_212();
    lemma_rounded_power(0x98165af37b2153df, 641, 212);
}

/// The cached power at index 71 is `10^220` rounded.
proof fn lemma_power_71()
    ensures
        is_rounded_power(CACHED_POWERS_F[71] as int, CACHED_POWERS_E[71] as int, 220),
{
    lemma_pow2_666();
    lemma_pow10_220();
    lemma_rounded_power(0xe2a0b5dc971f303a, 667, 220);
}

/// The cached power at index 72 is `10^228` rounded.
proof fn lemma_power_72()
    ensures
        is_rounded_power(CACHED_POWERS_F[72] as int, CACHED_POWERS_E[72] as int, 228),
{
    lemma_pow2_693();
    lemma_pow10_228();
    lemma_rounded_power(0xa8d9d1535ce3b396, 694, 228);
}

/// The cached power at index 73 is `10^236` rounded.
proof fn lemma_power_73()
    ensures
        is_rounded_power(CACHED_POWERS_F[73] as int, CACHED_POWERS_E[73] as int, 236),
{
    lemma_pow2_719();
    lemma_pow10_236();
    lemma_rounded_power(0xfb9b7cd9a4a7443c, 720, 236);
}

/// The cached power at index 74 is `10^244` rounded.
proof fn lemma_power_74()
    ensures
        is_rounded_power(CACHED_POWERS_F[74] as int, CACHED_POWERS_E[74] as int, 244),
{
    lemma_pow2_746();
    lemma_pow10_244();
    lemma_rounded_power(0xbb764c4ca7a44410, 747, 244);
}

/// The cached power at index 75 is `10^252` rounded.
proof fn lemma_power_75()
    ensures
        is_rounded_power(CACHED_POWERS_F[75] as int, CACHED_POWERS_E[75] as int, 252),
{
    lemma_pow2_773();
    lemma_pow10_252();
    lemma_rounded_power(0x8bab8eefb6409c1a, 774, 252);
}

/// The cached power at index 76 is `10^260` rounded.
proof fn lemma_power_76()
    ensures
        is_rounded_power(CACHED_POWERS_F[76] as int, CACHED_POWERS_E[76] as int, 260),
{
    lemma_pow2_799();
    lemma_pow10_260();
    lemma_rounded_power(0xd01fef10a657842c, 800, 260);
}

/// The cached power at index 77 is `10^268` rounded.
proof fn lemma_power_77()
    ensures
        is_rounded_power(CACHED_POWERS_F[77] as int, CACHED_POWERS_E[77] as int, 268),
{
    lemma_pow2_826();
    lemma_pow10_268();
    lemma_rounded_power(0x9b10a4e5e9913129, 827, 268);
}

/// The cached power at index 78 is `10^276` rounded.
proof fn lemma_power_78()
    ensures
        is_rounded_power(CACHED_POWERS_F[78] as int, CACHED_POWERS_E[78] as int, 276),
{
    lemma_pow2_852();
    lemma_pow10_276();
    lemma_rounded_power(0xe7109bfba19c0c9d, 853, 276);
}

/// The cached power at index 79 is `10^284` rounded.
proof fn lemma_power_79()
    ensures
        is_rounded_power(CACHED_POWERS_F[79] as int, CACHED_POWERS_E[79] as int, 284),
{
    lemma_pow2_879();
    lemma_pow10_284();
    lemma_rounded_power(0xac2820d9623bf429, 880, 284);
}

/// The cached power at index 80 is `10^292` rounded.
proof fn lemma_power_80()
    ensures
        is_rounded_power(CACHED_POWERS_F[80] as int, CACHED_POWERS_E[80] as int, 292),
{
    lemma_pow2_906();
    lemma_pow10_292();
    lemma_rounded_power(0x80444b5e7aa7cf85, 907, 292);
}

/// The cached power at index 81 is `10^300` rounded.
proof fn lemma_power_81()
    ensures
        is_rounded_power(CACHED_POWERS_F[81] as int, CACHED_POWERS_E[81] as int, 300),
{
    lemma_pow2_932();
    lemma_pow10_300();
    lemma_rounded_power(0xbf21e44003acdd2d, 933, 300);
}

/// The cached power at index 82 is `10^308` rounded.
proof fn lemma_power_82()
    ensures
        is_rounded_power(CACHED_POWERS_F[82] as int, CACHED_POWERS_E[82] as int, 308),
{
    lemma_pow2_959();
    lemma_pow10_308();
    lemma_rounded_power(0x8e679c2f5e44ff8f, 960, 308);
}

/// The cached power at index 83 is `10^316` rounded.
proof fn lemma_power_83()
    ensures
        is_rounded_power(CACHED_POWERS_F[83] as int, CACHED_POWERS_E[83] as int, 316),
{
    lemma_pow2_985();
    lemma_pow10_316();
    lemma_rounded_power(0xd433179d9c8cb841, 986, 316);
}

/// The cached power at index 84 is `10^324` rounded.
proof fn lemma_power_84()
    ensures
        is_rounded_power(CACHED_POWERS_F[84] as int, CACHED_POWERS_E[84] as int, 324),
{
    lemma_pow2_1012();
    lemma_pow10_324();
    lemma_rounded_power(0x9e19db92b4e31ba9, 1013, 324);
}

/// The cached power at index 85 is `10^332` rounded.
proof fn lemma_power_85()
    ensures
        is_rounded_power(CACHED_POWERS_F[85] as int, CACHED_POWERS_E[85] as int, 332),
{
    lemma_pow2_1038();
    lemma_pow10_332();
    lemma_rounded_power(0xeb96bf6ebadf77d9, 1039, 332);
}

/// The cached power at index 86 is `10^340` rounded.
proof fn lemma_power_86()
    ensures
        is_rounded_power(CACHED_POWERS_F[86] as int, CACHED_POWERS_E[86] as int, 340),
{
    lemma_pow2_1065();
    lemma_pow10_340();
    lemma_rounded_power(0xaf87023b9bf0ee6b, 1066, 340);
}

/// Every cached power is the power of ten that it stands for, rounded to
/// 64 bits: the two differ by at most half a unit of the last bit.
pub proof fn lemma_cached_power_accuracy(index: int)
    requires
        0 <= index < 87,
    ensures
        is_rounded_power(
            spec_cached_power(index).f as int,
            spec_cached_power(index).e as int,
            8 * index - 348,
        ),
{
    if index == 0 {
        lemma_power_0();
    } else if index == 1 {
        lemma_power_1();
    } else if index == 2 {
        lemma_power_2();
    } else if index == 3 {
        lemma_power_3();
    } else if index == 4 {
        lemma_power_4();
    } else if index == 5 {
        lemma_power_5();
    } else if index == 6 {
        lemma_power_6();
    } else if index == 7 {
        lemma_power_7();
    } else if index == 8 {
        lemma_power_8();
    } else if index == 9 {
        lemma_power_9();
    } else if index == 10 {
        lemma_power_10();
    } else if index == 11 {
        lemma_power_11();
    } else if index == 12 {
        lemma_power_12();
    } else if index == 13 {
        lemma_power_13();
    } else if index == 14 {
        lemma_power_14();
    } else if index == 15 {
        lemma_power_15();
    } else if index == 16 {
        lemma_power_16();
    } else if index == 17 {
        lemma_power_17();
    } else if index == 18 {
        lemma_power_18();
    } else if index == 19 {
        lemma_power_19();
    } else if index == 20 {
        lemma_power_20();
    } else if index == 21 {
        lemma_power_21();
    } else if index == 22 {
        lemma_power_22();
    } else if index == 23 {
        lemma_power_23();
    } else if index == 24 {
        lemma_power_24();
    } else if index == 25 {
        lemma_power_25();
    } else if index == 26 {
        lemma_power_26();
    } else if index == 27 {
        lemma_power_27();
    } else if index == 28 {
        lemma_power_28();
    } else if index == 29 {
        lemma_power_29();
    } else if index == 30 {
        lemma_power_30();
    } else if index == 31 {
        lemma_power_31();
    } else if index == 32 {
        lemma_power_32();
    } else if index == 33 {
        lemma_power_33();
    } else if index == 34 {
        lemma_power_34();
    } else if index == 35 {
        lemma_power_35();
    } else if index == 36 {
        lemma_power_36();
    } else if index == 37 {
        lemma_power_37();
    } else if index == 38 {
        lemma_power_38();
    } else if index == 39 {
        lemma_power_39();
    } else if index == 40 {
        lemma_power_40();
    } else if index == 41 {
        lemma_power_41();
    } else if index == 42 {
        lemma_power_42();
    } else if index == 43 {
        lemma_power_43();
    } else if index == 44 {
        lemma_power_44();
    } else if index == 45 {
        lemma_power_45();
    } else if index == 46 {
        lemma_power_46();
    } else if index == 47 {
        lemma_power_47();
    } else if index == 48 {
        lemma_power_48();
    } else if index == 49 {
        lemma_power_49();
    } else if index == 50 {
        lemma_power_50();
    } else if index == 51 {
        lemma_power_51();
    } else if index == 52 {
        lemma_power_52();
    } else if index == 53 {
        lemma_power_53();
    } else if index == 54 {
        lemma_power_54();
    } else if index == 55 {
        lemma_power_55();
    } else if index == 56 {
        lemma_power_56();
    } else if index == 57 {
        lemma_power_57();
    } else if index == 58 {
        lemma_power_58();
    } else if index == 59 {
        lemma_power_59();
    } else if index == 60 {
        lemma_power_60();
    } else if index == 61 {
        lemma_power_61();
    } else if index == 62 {
        lemma_power_62();
    } else if index == 63 {
        lemma_power_63();
    } else if index == 64 {
        lemma_power_64();
    } else if index == 65 {
        lemma_power_65();
    } else if index == 66 {
        lemma_power_66();
    } else if index == 67 {
        lemma_power_67();
    } else if index == 68 {
        lemma_power_68();
    } else if index == 69 {
        lemma_power_69();
    } else if index == 70 {
        lemma_power_70();
    } else if index == 71 {
        lemma_power_71();
    } else if index == 72 {
        lemma_power_72();
    } else if index == 73 {
        lemma_power_73();
    } else if index == 74 {
        lemma_power_74();
    } else if index == 75 {
        lemma_power_75();
    } else if index == 76 {
        lemma_power_76();
    } else if index == 77 {
        lemma_power_77();
    } else if index == 78 {
        lemma_power_78();
    } else if index == 79 {
        lemma_power_79();
    } else if index == 80 {
        lemma_power_80();
    } else if index == 81 {
        lemma_power_81();
    } else if index == 82 {
        lemma_power_82();
    } else if index == 83 {
        lemma_power_83();
    } else if index == 84 {
        lemma_power_84();
    } else if index == 85 {
        lemma_power_85();
    } else {
        lemma_power_86();
    }
}

} // verus!
