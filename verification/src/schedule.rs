//! The treasury release schedule: 1,000,000,000 KX released over 100 years,
//! one unlock per year, with amounts declining as 1/k against the harmonic
//! number H₁₀₀ and all rounding dust folded into the first release so the
//! total is exact.

use vstd::arithmetic::div_mod::lemma_div_is_ordered_by_denominator;
use vstd::prelude::*;

use crate::constants::{
    H100_SCALE, H100_SCALED, TREASURY_KX, TREASURY_RELEASE_COUNT, TREASURY_START_TIMESTAMP,
};
use crate::types::{Balance, Timestamp};

verus! {

/// One scheduled treasury release.
#[derive(Clone, Copy, PartialEq, Eq, Debug)]
pub struct TreasuryRelease {
    /// 1-based release index (1 = first release).
    pub index: u32,
    /// Amount in whole KX, for readability.
    pub amount_kx: u64,
    /// Amount in Chronos (base units).
    pub amount_chronos: Balance,
    /// Scheduled release timestamp.
    pub unlock_at: Timestamp,
    /// Calendar year of this release.
    pub year: u32,
}

/// The Chronos released in year `k` (before dust folding):
/// `TREASURY_KX / (H₁₀₀ × k)` in scaled integer arithmetic.
pub open spec fn spec_release_amount(k: int) -> int {
    (TREASURY_KX * 1_000_000 * H100_SCALE) as int / (H100_SCALED as int * k)
}

/// The sum of the releases for years 2..=k.
pub open spec fn spec_tail_sum(k: int) -> int
    decreases k,
{
    if k < 2 {
        0
    } else {
        spec_release_amount(k) + spec_tail_sum(k - 1)
    }
}

/// The exact first release: the treasury total minus all later releases
/// (clamped at zero, though the later releases stay far below the total).
pub open spec fn spec_first_amount() -> int {
    if spec_tail_sum(TREASURY_RELEASE_COUNT as int) <= (TREASURY_KX * 1_000_000) as int {
        (TREASURY_KX * 1_000_000) as int - spec_tail_sum(TREASURY_RELEASE_COUNT as int)
    } else {
        0
    }
}

/// The amount of release `k` as scheduled (1-based).
pub open spec fn spec_scheduled_amount(k: int) -> int {
    if k == 1 {
        spec_first_amount()
    } else {
        spec_release_amount(k)
    }
}

/// The Chronos scheduled across the first `k` releases.
pub open spec fn spec_sched_prefix(k: int) -> int {
    if k <= 0 {
        0
    } else {
        spec_first_amount() + spec_tail_sum(k)
    }
}

/// Seconds per average Gregorian year.
pub const SECONDS_PER_YEAR_AVG: i64 = 31_556_952;

// ── Evaluation of the harmonic tail, in steps the solver can follow ─────────

#[verifier::rlimit(80)]
proof fn lemma_tail_sum_upto_11()
    ensures
        spec_tail_sum(11) == 389383139748091,
{
    assert((TREASURY_KX * 1_000_000 * H100_SCALE) as int
        == 1_000_000_000_000_000_000_000_000_000);
    assert(spec_tail_sum(1) == 0);
    assert(H100_SCALED as int * 2 == 10374755035280);
    assert(spec_release_amount(2) == 96387817986972);
    assert(spec_tail_sum(2) == spec_release_amount(2) + spec_tail_sum(1));
    assert(H100_SCALED as int * 3 == 15562132552920);
    assert(spec_release_amount(3) == 64258545324648);
    assert(spec_tail_sum(3) == spec_release_amount(3) + spec_tail_sum(2));
    assert(H100_SCALED as int * 4 == 20749510070560);
    assert(spec_release_amount(4) == 48193908993486);
    assert(spec_tail_sum(4) == spec_release_amount(4) + spec_tail_sum(3));
    assert(H100_SCALED as int * 5 == 25936887588200);
    assert(spec_release_amount(5) == 38555127194789);
    assert(spec_tail_sum(5) == spec_release_amount(5) + spec_tail_sum(4));
    assert(H100_SCALED as int * 6 == 31124265105840);
    assert(spec_release_amount(6) == 32129272662324);
    assert(spec_tail_sum(6) == spec_release_amount(6) + spec_tail_sum(5));
    assert(H100_SCALED as int * 7 == 36311642623480);
    assert(spec_release_amount(7) == 27539376567706);
    assert(spec_tail_sum(7) == spec_release_amount(7) + spec_tail_sum(6));
    assert(H100_SCALED as int * 8 == 41499020141120);
    assert(spec_release_amount(8) == 24096954496743);
    assert(spec_tail_sum(8) == spec_release_amount(8) + spec_tail_sum(7));
    assert(H100_SCALED as int * 9 == 46686397658760);
    assert(spec_release_amount(9) == 21419515108216);
    assert(spec_tail_sum(9) == spec_release_amount(9) + spec_tail_sum(8));
    assert(H100_SCALED as int * 10 == 51873775176400);
    assert(spec_release_amount(10) == 19277563597394);
    assert(spec_tail_sum(10) == spec_release_amount(10) + spec_tail_sum(9));
    assert(H100_SCALED as int * 11 == 57061152694040);
    assert(spec_release_amount(11) == 17525057815813);
    assert(spec_tail_sum(11) == spec_release_amount(11) + spec_tail_sum(10));
}

#[verifier::rlimit(80)]
proof fn lemma_tail_sum_upto_21()
    ensures
        spec_tail_sum(21) == 509960706689840,
{
    assert((TREASURY_KX * 1_000_000 * H100_SCALE) as int
        == 1_000_000_000_000_000_000_000_000_000);
    lemma_tail_sum_upto_11();
    assert(H100_SCALED as int * 12 == 62248530211680);
    assert(spec_release_amount(12) == 16064636331162);
    assert(spec_tail_sum(12) == spec_release_amount(12) + spec_tail_sum(11));
    assert(H100_SCALED as int * 13 == 67435907729320);
    assert(spec_release_amount(13) == 14828895074918);
    assert(spec_tail_sum(13) == spec_release_amount(13) + spec_tail_sum(12));
    assert(H100_SCALED as int * 14 == 72623285246960);
    assert(spec_release_amount(14) == 13769688283853);
    assert(spec_tail_sum(14) == spec_release_amount(14) + spec_tail_sum(13));
    assert(H100_SCALED as int * 15 == 77810662764600);
    assert(spec_release_amount(15) == 12851709064929);
    assert(spec_tail_sum(15) == spec_release_amount(15) + spec_tail_sum(14));
    assert(H100_SCALED as int * 16 == 82998040282240);
    assert(spec_release_amount(16) == 12048477248371);
    assert(spec_tail_sum(16) == spec_release_amount(16) + spec_tail_sum(15));
    assert(H100_SCALED as int * 17 == 88185417799880);
    assert(spec_release_amount(17) == 11339743292585);
    assert(spec_tail_sum(17) == spec_release_amount(17) + spec_tail_sum(16));
    assert(H100_SCALED as int * 18 == 93372795317520);
    assert(spec_release_amount(18) == 10709757554108);
    assert(spec_tail_sum(18) == spec_release_amount(18) + spec_tail_sum(17));
    assert(H100_SCALED as int * 19 == 98560172835160);
    assert(spec_release_amount(19) == 10146086103891);
    assert(spec_tail_sum(19) == spec_release_amount(19) + spec_tail_sum(18));
    assert(H100_SCALED as int * 20 == 103747550352800);
    assert(spec_release_amount(20) == 9638781798697);
    assert(spec_tail_sum(20) == spec_release_amount(20) + spec_tail_sum(19));
    assert(H100_SCALED as int * 21 == 108934927870440);
    assert(spec_release_amount(21) == 9179792189235);
    assert(spec_tail_sum(21) == spec_release_amount(21) + spec_tail_sum(20));
}

#[verifier::rlimit(80)]
proof fn lemma_tail_sum_upto_31()
    ensures
        spec_tail_sum(31) == 583579117799333,
{
    assert((TREASURY_KX * 1_000_000 * H100_SCALE) as int
        == 1_000_000_000_000_000_000_000_000_000);
    lemma_tail_sum_upto_21();
    assert(H100_SCALED as int * 22 == 114122305388080);
    assert(spec_release_amount(22) == 8762528907906);
    assert(spec_tail_sum(22) == spec_release_amount(22) + spec_tail_sum(21));
    assert(H100_SCALED as int * 23 == 119309682905720);
    assert(spec_release_amount(23) == 8381549390171);
    assert(spec_tail_sum(23) == spec_release_amount(23) + spec_tail_sum(22));
    assert(H100_SCALED as int * 24 == 124497060423360);
    assert(spec_release_amount(24) == 8032318165581);
    assert(spec_tail_sum(24) == spec_release_amount(24) + spec_tail_sum(23));
    assert(H100_SCALED as int * 25 == 129684437941000);
    assert(spec_release_amount(25) == 7711025438957);
    assert(spec_tail_sum(25) == spec_release_amount(25) + spec_tail_sum(24));
    assert(H100_SCALED as int * 26 == 134871815458640);
    assert(spec_release_amount(26) == 7414447537459);
    assert(spec_tail_sum(26) == spec_release_amount(26) + spec_tail_sum(25));
    assert(H100_SCALED as int * 27 == 140059192976280);
    assert(spec_release_amount(27) == 7139838369405);
    assert(spec_tail_sum(27) == spec_release_amount(27) + spec_tail_sum(26));
    assert(H100_SCALED as int * 28 == 145246570493920);
    assert(spec_release_amount(28) == 6884844141926);
    assert(spec_tail_sum(28) == spec_release_amount(28) + spec_tail_sum(27));
    assert(H100_SCALED as int * 29 == 150433948011560);
    assert(spec_release_amount(29) == 6647435723239);
    assert(spec_tail_sum(29) == spec_release_amount(29) + spec_tail_sum(28));
    assert(H100_SCALED as int * 30 == 155621325529200);
    assert(spec_release_amount(30) == 6425854532464);
    assert(spec_tail_sum(30) == spec_release_amount(30) + spec_tail_sum(29));
    assert(H100_SCALED as int * 31 == 160808703046840);
    assert(spec_release_amount(31) == 6218568902385);
    assert(spec_tail_sum(31) == spec_release_amount(31) + spec_tail_sum(30));
}

#[verifier::rlimit(80)]
proof fn lemma_tail_sum_upto_41()
    ensures
        spec_tail_sum(41) == 636725064178746,
{
    assert((TREASURY_KX * 1_000_000 * H100_SCALE) as int
        == 1_000_000_000_000_000_000_000_000_000);
    lemma_tail_sum_upto_31();
    assert(H100_SCALED as int * 32 == 165996080564480);
    assert(spec_release_amount(32) == 6024238624185);
    assert(spec_tail_sum(32) == spec_release_amount(32) + spec_tail_sum(31));
    assert(H100_SCALED as int * 33 == 171183458082120);
    assert(spec_release_amount(33) == 5841685938604);
    assert(spec_tail_sum(33) == spec_release_amount(33) + spec_tail_sum(32));
    assert(H100_SCALED as int * 34 == 176370835599760);
    assert(spec_release_amount(34) == 5669871646292);
    assert(spec_tail_sum(34) == spec_release_amount(34) + spec_tail_sum(33));
    assert(H100_SCALED as int * 35 == 181558213117400);
    assert(spec_release_amount(35) == 5507875313541);
    assert(spec_tail_sum(35) == spec_release_amount(35) + spec_tail_sum(34));
    assert(H100_SCALED as int * 36 == 186745590635040);
    assert(spec_release_amount(36) == 5354878777054);
    assert(spec_tail_sum(36) == spec_release_amount(36) + spec_tail_sum(35));
    assert(H100_SCALED as int * 37 == 191932968152680);
    assert(spec_release_amount(37) == 5210152323620);
    assert(spec_tail_sum(37) == spec_release_amount(37) + spec_tail_sum(36));
    assert(H100_SCALED as int * 38 == 197120345670320);
    assert(spec_release_amount(38) == 5073043051945);
    assert(spec_tail_sum(38) == spec_release_amount(38) + spec_tail_sum(37));
    assert(H100_SCALED as int * 39 == 202307723187960);
    assert(spec_release_amount(39) == 4942965024972);
    assert(spec_tail_sum(39) == spec_release_amount(39) + spec_tail_sum(38));
    assert(H100_SCALED as int * 40 == 207495100705600);
    assert(spec_release_amount(40) == 4819390899348);
    assert(spec_tail_sum(40) == spec_release_amount(40) + spec_tail_sum(39));
    assert(H100_SCALED as int * 41 == 212682478223240);
    assert(spec_release_amount(41) == 4701844779852);
    assert(spec_tail_sum(41) == spec_release_amount(41) + spec_tail_sum(40));
}

#[verifier::rlimit(80)]
proof fn lemma_tail_sum_upto_51()
    ensures
        spec_tail_sum(51) == 678341448930718,
{
    assert((TREASURY_KX * 1_000_000 * H100_SCALE) as int
        == 1_000_000_000_000_000_000_000_000_000);
    lemma_tail_sum_upto_41();
    assert(H100_SCALED as int * 42 == 217869855740880);
    assert(spec_release_amount(42) == 4589896094617);
    assert(spec_tail_sum(42) == spec_release_amount(42) + spec_tail_sum(41));
    assert(H100_SCALED as int * 43 == 223057233258520);
    assert(spec_release_amount(43) == 4483154324975);
    assert(spec_tail_sum(43) == spec_release_amount(43) + spec_tail_sum(42));
    assert(H100_SCALED as int * 44 == 228244610776160);
    assert(spec_release_amount(44) == 4381264453953);
    assert(spec_tail_sum(44) == spec_release_amount(44) + spec_tail_sum(43));
    assert(H100_SCALED as int * 45 == 233431988293800);
    assert(spec_release_amount(45) == 4283903021643);
    assert(spec_tail_sum(45) == spec_release_amount(45) + spec_tail_sum(44));
    assert(H100_SCALED as int * 46 == 238619365811440);
    assert(spec_release_amount(46) == 4190774695085);
    assert(spec_tail_sum(46) == spec_release_amount(46) + spec_tail_sum(45));
    assert(H100_SCALED as int * 47 == 243806743329080);
    assert(spec_release_amount(47) == 4101609276041);
    assert(spec_tail_sum(47) == spec_release_amount(47) + spec_tail_sum(46));
    assert(H100_SCALED as int * 48 == 248994120846720);
    assert(spec_release_amount(48) == 4016159082790);
    assert(spec_tail_sum(48) == spec_release_amount(48) + spec_tail_sum(47));
    assert(H100_SCALED as int * 49 == 254181498364360);
    assert(spec_release_amount(49) == 3934196652529);
    assert(spec_tail_sum(49) == spec_release_amount(49) + spec_tail_sum(48));
    assert(H100_SCALED as int * 50 == 259368875882000);
    assert(spec_release_amount(50) == 3855512719478);
    assert(spec_tail_sum(50) == spec_release_amount(50) + spec_tail_sum(49));
    assert(H100_SCALED as int * 51 == 264556253399640);
    assert(spec_release_amount(51) == 3779914430861);
    assert(spec_tail_sum(51) == spec_release_amount(51) + spec_tail_sum(50));
}

#[verifier::rlimit(80)]
proof fn lemma_tail_sum_upto_61()
    ensures
        spec_tail_sum(61) == 712549615485889,
{
    assert((TREASURY_KX * 1_000_000 * H100_SCALE) as int
        == 1_000_000_000_000_000_000_000_000_000);
    lemma_tail_sum_upto_51();
    assert(H100_SCALED as int * 52 == 269743630917280);
    assert(spec_release_amount(52) == 3707223768729);
    assert(spec_tail_sum(52) == spec_release_amount(52) + spec_tail_sum(51));
    assert(H100_SCALED as int * 53 == 274931008434920);
    assert(spec_release_amount(53) == 3637276150451);
    assert(spec_tail_sum(53) == spec_release_amount(53) + spec_tail_sum(52));
    assert(H100_SCALED as int * 54 == 280118385952560);
    assert(spec_release_amount(54) == 3569919184702);
    assert(spec_tail_sum(54) == spec_release_amount(54) + spec_tail_sum(53));
    assert(H100_SCALED as int * 55 == 285305763470200);
    assert(spec_release_amount(55) == 3505011563162);
    assert(spec_tail_sum(55) == spec_release_amount(55) + spec_tail_sum(54));
    assert(H100_SCALED as int * 56 == 290493140987840);
    assert(spec_release_amount(56) == 3442422070963);
    assert(spec_tail_sum(56) == spec_release_amount(56) + spec_tail_sum(55));
    assert(H100_SCALED as int * 57 == 295680518505480);
    assert(spec_release_amount(57) == 3382028701297);
    assert(spec_tail_sum(57) == spec_release_amount(57) + spec_tail_sum(56));
    assert(H100_SCALED as int * 58 == 300867896023120);
    assert(spec_release_amount(58) == 3323717861619);
    assert(spec_tail_sum(58) == spec_release_amount(58) + spec_tail_sum(57));
    assert(H100_SCALED as int * 59 == 306055273540760);
    assert(spec_release_amount(59) == 3267383660575);
    assert(spec_tail_sum(59) == spec_release_amount(59) + spec_tail_sum(58));
    assert(H100_SCALED as int * 60 == 311242651058400);
    assert(spec_release_amount(60) == 3212927266232);
    assert(spec_tail_sum(60) == spec_release_amount(60) + spec_tail_sum(59));
    assert(H100_SCALED as int * 61 == 316430028576040);
    assert(spec_release_amount(61) == 3160256327441);
    assert(spec_tail_sum(61) == spec_release_amount(61) + spec_tail_sum(60));
}

#[verifier::rlimit(80)]
proof fn lemma_tail_sum_upto_71()
    ensures
        spec_tail_sum(71) == 741592693340409,
{
    assert((TREASURY_KX * 1_000_000 * H100_SCALE) as int
        == 1_000_000_000_000_000_000_000_000_000);
    lemma_tail_sum_upto_61();
    assert(H100_SCALED as int * 62 == 321617406093680);
    assert(spec_release_amount(62) == 3109284451192);
    assert(spec_tail_sum(62) == spec_release_amount(62) + spec_tail_sum(61));
    assert(H100_SCALED as int * 63 == 326804783611320);
    assert(spec_release_amount(63) == 3059930729745);
    assert(spec_tail_sum(63) == spec_release_amount(63) + spec_tail_sum(62));
    assert(H100_SCALED as int * 64 == 331992161128960);
    assert(spec_release_amount(64) == 3012119312092);
    assert(spec_tail_sum(64) == spec_release_amount(64) + spec_tail_sum(63));
    assert(H100_SCALED as int * 65 == 337179538646600);
    assert(spec_release_amount(65) == 2965779014983);
    assert(spec_tail_sum(65) == spec_release_amount(65) + spec_tail_sum(64));
    assert(H100_SCALED as int * 66 == 342366916164240);
    assert(spec_release_amount(66) == 2920842969302);
    assert(spec_tail_sum(66) == spec_release_amount(66) + spec_tail_sum(65));
    assert(H100_SCALED as int * 67 == 347554293681880);
    assert(spec_release_amount(67) == 2877248298118);
    assert(spec_tail_sum(67) == spec_release_amount(67) + spec_tail_sum(66));
    assert(H100_SCALED as int * 68 == 352741671199520);
    assert(spec_release_amount(68) == 2834935823146);
    assert(spec_tail_sum(68) == spec_release_amount(68) + spec_tail_sum(67));
    assert(H100_SCALED as int * 69 == 357929048717160);
    assert(spec_release_amount(69) == 2793849796723);
    assert(spec_tail_sum(69) == spec_release_amount(69) + spec_tail_sum(68));
    assert(H100_SCALED as int * 70 == 363116426234800);
    assert(spec_release_amount(70) == 2753937656770);
    assert(spec_tail_sum(70) == spec_release_amount(70) + spec_tail_sum(69));
    assert(H100_SCALED as int * 71 == 368303803752440);
    assert(spec_release_amount(71) == 2715149802449);
    assert(spec_tail_sum(71) == spec_release_amount(71) + spec_tail_sum(70));
}

#[verifier::rlimit(80)]
proof fn lemma_tail_sum_upto_81()
    ensures
        spec_tail_sum(81) == 766827736063320,
{
    assert((TREASURY_KX * 1_000_000 * H100_SCALE) as int
        == 1_000_000_000_000_000_000_000_000_000);
    lemma_tail_sum_upto_71();
    assert(H100_SCALED as int * 72 == 373491181270080);
    assert(spec_release_amount(72) == 2677439388527);
    assert(spec_tail_sum(72) == spec_release_amount(72) + spec_tail_sum(71));
    assert(H100_SCALED as int * 73 == 378678558787720);
    assert(spec_release_amount(73) == 2640762136629);
    assert(spec_tail_sum(73) == spec_release_amount(73) + spec_tail_sum(72));
    assert(H100_SCALED as int * 74 == 383865936305360);
    assert(spec_release_amount(74) == 2605076161810);
    assert(spec_tail_sum(74) == spec_release_amount(74) + spec_tail_sum(73));
    assert(H100_SCALED as int * 75 == 389053313823000);
    assert(spec_release_amount(75) == 2570341812985);
    assert(spec_tail_sum(75) == spec_release_amount(75) + spec_tail_sum(74));
    assert(H100_SCALED as int * 76 == 394240691340640);
    assert(spec_release_amount(76) == 2536521525972);
    assert(spec_tail_sum(76) == spec_release_amount(76) + spec_tail_sum(75));
    assert(H100_SCALED as int * 77 == 399428068858280);
    assert(spec_release_amount(77) == 2503579687973);
    assert(spec_tail_sum(77) == spec_release_amount(77) + spec_tail_sum(76));
    assert(H100_SCALED as int * 78 == 404615446375920);
    assert(spec_release_amount(78) == 2471482512486);
    assert(spec_tail_sum(78) == spec_release_amount(78) + spec_tail_sum(77));
    assert(H100_SCALED as int * 79 == 409802823893560);
    assert(spec_release_amount(79) == 2440197923720);
    assert(spec_tail_sum(79) == spec_release_amount(79) + spec_tail_sum(78));
    assert(H100_SCALED as int * 80 == 414990201411200);
    assert(spec_release_amount(80) == 2409695449674);
    assert(spec_tail_sum(80) == spec_release_amount(80) + spec_tail_sum(79));
    assert(H100_SCALED as int * 81 == 420177578928840);
    assert(spec_release_amount(81) == 2379946123135);
    assert(spec_tail_sum(81) == spec_release_amount(81) + spec_tail_sum(80));
}

#[verifier::rlimit(80)]
proof fn lemma_tail_sum_upto_91()
    ensures
        spec_tail_sum(91) == 789138557954743,
{
    assert((TREASURY_KX * 1_000_000 * H100_SCALE) as int
        == 1_000_000_000_000_000_000_000_000_000);
    lemma_tail_sum_upto_81();
    assert(H100_SCALED as int * 82 == 425364956446480);
    assert(spec_release_amount(82) == 2350922389926);
    assert(spec_tail_sum(82) == spec_release_amount(82) + spec_tail_sum(81));
    assert(H100_SCALED as int * 83 == 430552333964120);
    assert(spec_release_amount(83) == 2322598023782);
    assert(spec_tail_sum(83) == spec_release_amount(83) + spec_tail_sum(82));
    assert(H100_SCALED as int * 84 == 435739711481760);
    assert(spec_release_amount(84) == 2294948047308);
    assert(spec_tail_sum(84) == spec_release_amount(84) + spec_tail_sum(83));
    assert(H100_SCALED as int * 85 == 440927088999400);
    assert(spec_release_amount(85) == 2267948658517);
    assert(spec_tail_sum(85) == spec_release_amount(85) + spec_tail_sum(84));
    assert(H100_SCALED as int * 86 == 446114466517040);
    assert(spec_release_amount(86) == 2241577162487);
    assert(spec_tail_sum(86) == spec_release_amount(86) + spec_tail_sum(85));
    assert(H100_SCALED as int * 87 == 451301844034680);
    assert(spec_release_amount(87) == 2215811907746);
    assert(spec_tail_sum(87) == spec_release_amount(87) + spec_tail_sum(86));
    assert(H100_SCALED as int * 88 == 456489221552320);
    assert(spec_release_amount(88) == 2190632226976);
    assert(spec_tail_sum(88) == spec_release_amount(88) + spec_tail_sum(87));
    assert(H100_SCALED as int * 89 == 461676599069960);
    assert(spec_release_amount(89) == 2166018381729);
    assert(spec_tail_sum(89) == spec_release_amount(89) + spec_tail_sum(88));
    assert(H100_SCALED as int * 90 == 466863976587600);
    assert(spec_release_amount(90) == 2141951510821);
    assert(spec_tail_sum(90) == spec_release_amount(90) + spec_tail_sum(89));
    assert(H100_SCALED as int * 91 == 472051354105240);
    assert(spec_release_amount(91) == 2118413582131);
    assert(spec_tail_sum(91) == spec_release_amount(91) + spec_tail_sum(90));
}

#[verifier::rlimit(80)]
proof fn lemma_tail_sum_upto_100()
    ensures
        spec_tail_sum(100) == 807224364025930,
{
    assert((TREASURY_KX * 1_000_000 * H100_SCALE) as int
        == 1_000_000_000_000_000_000_000_000_000);
    lemma_tail_sum_upto_91();
    assert(H100_SCALED as int * 92 == 477238731622880);
    assert(spec_release_amount(92) == 2095387347542);
    assert(spec_tail_sum(92) == spec_release_amount(92) + spec_tail_sum(91));
    assert(H100_SCALED as int * 93 == 482426109140520);
    assert(spec_release_amount(93) == 2072856300795);
    assert(spec_tail_sum(93) == spec_release_amount(93) + spec_tail_sum(92));
    assert(H100_SCALED as int * 94 == 487613486658160);
    assert(spec_release_amount(94) == 2050804638020);
    assert(spec_tail_sum(94) == spec_release_amount(94) + spec_tail_sum(93));
    assert(H100_SCALED as int * 95 == 492800864175800);
    assert(spec_release_amount(95) == 2029217220778);
    assert(spec_tail_sum(95) == spec_release_amount(95) + spec_tail_sum(94));
    assert(H100_SCALED as int * 96 == 497988241693440);
    assert(spec_release_amount(96) == 2008079541395);
    assert(spec_tail_sum(96) == spec_release_amount(96) + spec_tail_sum(95));
    assert(H100_SCALED as int * 97 == 503175619211080);
    assert(spec_release_amount(97) == 1987377690453);
    assert(spec_tail_sum(97) == spec_release_amount(97) + spec_tail_sum(96));
    assert(H100_SCALED as int * 98 == 508362996728720);
    assert(spec_release_amount(98) == 1967098326264);
    assert(spec_tail_sum(98) == spec_release_amount(98) + spec_tail_sum(97));
    assert(H100_SCALED as int * 99 == 513550374246360);
    assert(spec_release_amount(99) == 1947228646201);
    assert(spec_tail_sum(99) == spec_release_amount(99) + spec_tail_sum(98));
    assert(H100_SCALED as int * 100 == 518737751764000);
    assert(spec_release_amount(100) == 1927756359739);
    assert(spec_tail_sum(100) == spec_release_amount(100) + spec_tail_sum(99));
}

/// The later releases sum to well under the treasury total, so the first
/// release is exact and positive: the clamp in `spec_first_amount` never
/// engages.
pub proof fn lemma_tail_sum_value()
    ensures
        spec_tail_sum(TREASURY_RELEASE_COUNT as int) == 807224364025930,
        spec_tail_sum(TREASURY_RELEASE_COUNT as int) <= (TREASURY_KX * 1_000_000) as int,
        spec_first_amount() == 192775635974070,
{
    lemma_tail_sum_upto_100();
}

/// Compute the Chronos amount for release index `k` (2-based use; `k = 1` is
/// derived from the remainder instead).
pub fn treasury_release_amount(k: u32) -> (r: Balance)
    requires
        1 <= k <= TREASURY_RELEASE_COUNT,
    ensures
        r == spec_release_amount(k as int),
        r <= 200_000_000_000_000,
{
    let numerator: u128 = 1_000_000_000_000_000_000_000_000_000;
    proof {
        assert(numerator == TREASURY_KX * 1_000_000 * H100_SCALE);
        lemma_div_is_ordered_by_denominator(
            numerator as int,
            H100_SCALED as int,
            H100_SCALED as int * k as int,
        );
        assert(numerator as int / H100_SCALED as int <= 200_000_000_000_000);
    }
    numerator / (H100_SCALED * k as u128)
}

/// Generate the complete release schedule. The amounts sum exactly to the
/// treasury total; each release lands one average year after the previous,
/// starting at the treasury start timestamp.
pub fn treasury_release_schedule() -> (r: Vec<TreasuryRelease>)
    ensures
        r@.len() == TREASURY_RELEASE_COUNT,
        forall|i: int|
            0 <= i < r@.len() ==> {
                let rel = #[trigger] r@[i];
                &&& rel.index == i + 1
                &&& rel.year == 2029 + i
                &&& rel.unlock_at == TREASURY_START_TIMESTAMP + i * SECONDS_PER_YEAR_AVG
                &&& rel.amount_chronos == spec_scheduled_amount(i + 1)
                &&& rel.amount_kx == spec_scheduled_amount(i + 1) / 1_000_000
            },
{
    // Total of the later releases, to fold the dust into release 1.
    let mut rest: u128 = 0;
    let mut k: u32 = 2;
    #[verifier::loop_isolation(false)]
    while k <= TREASURY_RELEASE_COUNT
        invariant
            2 <= k <= TREASURY_RELEASE_COUNT + 1,
            rest == spec_tail_sum(k as int - 1),
            rest <= 200_000_000_000_000 * k,
        decreases TREASURY_RELEASE_COUNT + 1 - k,
    {
        let a = treasury_release_amount(k);
        proof {
            assert(spec_release_amount(k as int) >= 0);
        }
        rest = rest + a;
        k += 1;
    }
    proof {
        assert(rest == spec_tail_sum(TREASURY_RELEASE_COUNT as int));
    }
    let total_target: u128 = 1_000_000_000_000_000;
    proof {
        assert(total_target == TREASURY_KX * 1_000_000);
    }
    let first: u128 = if rest <= total_target {
        total_target - rest
    } else {
        0
    };

    let mut schedule: Vec<TreasuryRelease> = Vec::new();
    let mut i: u32 = 1;
    #[verifier::loop_isolation(false)]
    while i <= TREASURY_RELEASE_COUNT
        invariant
            1 <= i <= TREASURY_RELEASE_COUNT + 1,
            first == spec_first_amount(),
            0 <= spec_first_amount() <= total_target,
            schedule@.len() == i - 1,
            forall|j: int|
                0 <= j < schedule@.len() ==> {
                    let rel = #[trigger] schedule@[j];
                    &&& rel.index == j + 1
                    &&& rel.year == 2029 + j
                    &&& rel.unlock_at == TREASURY_START_TIMESTAMP + j * SECONDS_PER_YEAR_AVG
                    &&& rel.amount_chronos == spec_scheduled_amount(j + 1)
                    &&& rel.amount_kx == spec_scheduled_amount(j + 1) / 1_000_000
                },
        decreases TREASURY_RELEASE_COUNT + 1 - i,
    {
        let amount: u128 = if i == 1 {
            first
        } else {
            treasury_release_amount(i)
        };
        let year: u32 = 2028 + i;
        let unlock_at: i64 = TREASURY_START_TIMESTAMP + ((i - 1) as i64) * SECONDS_PER_YEAR_AVG;
        proof {
            assert(amount / 1_000_000 <= 1_000_000_000);
        }
        schedule.push(
            TreasuryRelease {
                index: i,
                amount_kx: (amount / 1_000_000) as u64,
                amount_chronos: amount,
                unlock_at,
                year,
            },
        );
        i += 1;
    }
    schedule
}

/// The scheduled amounts sum exactly to the treasury total.
pub proof fn lemma_schedule_total()
    ensures
        spec_first_amount() + spec_tail_sum(TREASURY_RELEASE_COUNT as int) == (TREASURY_KX
            * 1_000_000) as int,
{
    lemma_tail_sum_value();
}

/// Each release is non-negative, so the tail sums grow with the horizon.
pub proof fn lemma_tail_sum_monotone(a: int, b: int)
    requires
        a <= b,
    ensures
        spec_tail_sum(a) <= spec_tail_sum(b),
    decreases b - a,
{
    if a < b {
        lemma_tail_sum_monotone(a, b - 1);
        if b >= 2 {
            assert(H100_SCALED as int * b > 0) by (nonlinear_arith)
                requires
                    b >= 2,
            ;
            assert(spec_release_amount(b) >= 0);
        }
    }
}

} // verus!
