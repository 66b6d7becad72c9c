//! Equal-tempered pitch: semitone ratios, detune factors and note frequencies.

use vstd::prelude::*;
use crate::fixed::{clamp, clamp_int, UNIT};

verus! {

/// The frequency of the note A above middle C, in microhertz.
pub const CONCERT_PITCH: i64 = 440_000_000;

/// The note number of the note A above middle C.
pub const CONCERT_NOTE: u8 = 69;

/// The highest note number.
pub const NOTE_MAX: u8 = 127;

/// The largest detune, in cents, in either direction: twelve octaves. A
/// detune factor beyond it would not fit the numbers that hold it.
pub const DETUNE_MAX: i64 = 14_400;

/// The frequency ratio of `k` equal-tempered semitones, in billionths,
/// for `k` from 0 to 12: the twelfth root of two raised to `k`, to the
/// nearest billionth.
pub open spec fn semitone_ratio(k: int) -> int {
    if k <= 0 {
        1_000_000_000
    } else if k == 1 {
        1_059_463_094
    } else if k == 2 {
        1_122_462_048
    } else if k == 3 {
        1_189_207_115
    } else if k == 4 {
        1_259_921_050
    } else if k == 5 {
        1_334_839_854
    } else if k == 6 {
        1_414_213_562
    } else if k == 7 {
        1_498_307_077
    } else if k == 8 {
        1_587_401_052
    } else if k == 9 {
        1_681_792_831
    } else if k == 10 {
        1_781_797_436
    } else if k == 11 {
        1_887_748_625
    } else {
        2_000_000_000
    }
}

/// `x` multiplied by itself twelve times over.
pub open spec fn twelfth_power(x: int) -> int {
    let x2 = x * x;
    let x4 = x2 * x2;
    x4 * x4 * x4
}

/// Two raised to `e`, for `e` from 0 to 12.
pub open spec fn octave_factor(e: int) -> int {
    if e <= 0 {
        1
    } else if e == 1 {
        2
    } else if e == 2 {
        4
    } else if e == 3 {
        8
    } else if e == 4 {
        16
    } else if e == 5 {
        32
    } else if e == 6 {
        64
    } else if e == 7 {
        128
    } else if e == 8 {
        256
    } else if e == 9 {
        512
    } else if e == 10 {
        1024
    } else if e == 11 {
        2048
    } else {
        4096
    }
}

/// The frequency ratio of `k` cents, in billionths, for `k` from 0 to 99:
/// two raised to `k / 1200`, to the nearest billionth.
pub open spec fn cent_ratio(k: int) -> int {
    if k <= 0 {
        1_000_000_000
    } else if k == 1 {
        1_000_577_790
    } else if k == 2 {
        1_001_155_913
    } else if k == 3 {
        1_001_734_370
    } else if k == 4 {
        1_002_313_162
    } else if k == 5 {
        1_002_892_288
    } else if k == 6 {
        1_003_471_749
    } else if k == 7 {
        1_004_051_544
    } else if k == 8 {
        1_004_631_674
    } else if k == 9 {
        1_005_212_140
    } else if k == 10 {
        1_005_792_941
    } else if k == 11 {
        1_006_374_078
    } else if k == 12 {
        1_006_955_550
    } else if k == 13 {
        1_007_537_358
    } else if k == 14 {
        1_008_119_503
    } else if k == 15 {
        1_008_701_984
    } else if k == 16 {
        1_009_284_801
    } else if k == 17 {
        1_009_867_955
    } else if k == 18 {
        1_010_451_446
    } else if k == 19 {
        1_011_035_275
    } else if k == 20 {
        1_011_619_440
    } else if k == 21 {
        1_012_203_943
    } else if k == 22 {
        1_012_788_784
    } else if k == 23 {
        1_013_373_963
    } else if k == 24 {
        1_013_959_480
    } else if k == 25 {
        1_014_545_335
    } else if k == 26 {
        1_015_131_529
    } else if k == 27 {
        1_015_718_061
    } else if k == 28 {
        1_016_304_932
    } else if k == 29 {
        1_016_892_142
    } else if k == 30 {
        1_017_479_692
    } else if k == 31 {
        1_018_067_581
    } else if k == 32 {
        1_018_655_810
    } else if k == 33 {
        1_019_244_379
    } else if k == 34 {
        1_019_833_287
    } else if k == 35 {
        1_020_422_536
    } else if k == 36 {
        1_021_012_126
    } else if k == 37 {
        1_021_602_056
    } else if k == 38 {
        1_022_192_327
    } else if k == 39 {
        1_022_782_939
    } else if k == 40 {
        1_023_373_892
    } else if k == 41 {
        1_023_965_187
    } else if k == 42 {
        1_024_556_823
    } else if k == 43 {
        1_025_148_801
    } else if k == 44 {
        1_025_741_121
    } else if k == 45 {
        1_026_333_784
    } else if k == 46 {
        1_026_926_789
    } else if k == 47 {
        1_027_520_136
    } else if k == 48 {
        1_028_113_827
    } else if k == 49 {
        1_028_707_860
    } else if k == 50 {
        1_029_302_237
    } else if k == 51 {
        1_029_896_957
    } else if k == 52 {
        1_030_492_020
    } else if k == 53 {
        1_031_087_428
    } else if k == 54 {
        1_031_683_179
    } else if k == 55 {
        1_032_279_275
    } else if k == 56 {
        1_032_875_715
    } else if k == 57 {
        1_033_472_500
    } else if k == 58 {
        1_034_069_629
    } else if k == 59 {
        1_034_667_104
    } else if k == 60 {
        1_035_264_924
    } else if k == 61 {
        1_035_863_089
    } else if k == 62 {
        1_036_461_600
    } else if k == 63 {
        1_037_060_457
    } else if k == 64 {
        1_037_659_659
    } else if k == 65 {
        1_038_259_208
    } else if k == 66 {
        1_038_859_103
    } else if k == 67 {
        1_039_459_345
    } else if k == 68 {
        1_040_059_934
    } else if k == 69 {
        1_040_660_870
    } else if k == 70 {
        1_041_262_153
    } else if k == 71 {
        1_041_863_783
    } else if k == 72 {
        1_042_465_761
    } else if k == 73 {
        1_043_068_087
    } else if k == 74 {
        1_043_670_760
    } else if k == 75 {
        1_044_273_782
    } else if k == 76 {
        1_044_877_153
    } else if k == 77 {
        1_045_480_872
    } else if k == 78 {
        1_046_084_940
    } else if k == 79 {
        1_046_689_357
    } else if k == 80 {
        1_047_294_123
    } else if k == 81 {
        1_047_899_238
    } else if k == 82 {
        1_048_504_704
    } else if k == 83 {
        1_049_110_519
    } else if k == 84 {
        1_049_716_684
    } else if k == 85 {
        1_050_323_199
    } else if k == 86 {
        1_050_930_065
    } else if k == 87 {
        1_051_537_281
    } else if k == 88 {
        1_052_144_848
    } else if k == 89 {
        1_052_752_766
    } else if k == 90 {
        1_053_361_036
    } else if k == 91 {
        1_053_969_657
    } else if k == 92 {
        1_054_578_630
    } else if k == 93 {
        1_055_187_954
    } else if k == 94 {
        1_055_797_631
    } else if k == 95 {
        1_056_407_659
    } else if k == 96 {
        1_057_018_041
    } else if k == 97 {
        1_057_628_774
    } else if k == 98 {
        1_058_239_861
    } else {
        1_058_851_301
    }
}

/// The frequency ratio of `r` cents inside one octave, for `r` from 0 to
/// 1199: the ratio of the whole semitones times the ratio of the cents
/// that are left, to the nearest billionth.
pub open spec fn octave_ratio(r: int) -> int {
    (semitone_ratio(r / 100) * cent_ratio(r % 100) + 500_000_000) / 1_000_000_000
}

/// The factor by which a detune of `cents` multiplies a frequency, in
/// billionths: two raised to `cents / 1200`. The whole octaves double or
/// halve the ratio of the cents that are left. A detune beyond twelve
/// octaves counts as twelve octaves.
pub open spec fn detune_ratio(cents: int) -> int {
    let c = clamp_int(cents, -DETUNE_MAX, DETUNE_MAX as int);
    let octaves = c / 1200;
    let base = octave_ratio(c % 1200);
    if octaves >= 0 {
        base * octave_factor(octaves)
    } else {
        (base + octave_factor(-octaves) / 2) / octave_factor(-octaves)
    }
}

/// The frequency of note number `note` in microhertz, to the nearest
/// microhertz: 440 Hz for note 69, and a factor of the twelfth root of two
/// for every semitone. Note numbers above 127 count as 127.
pub open spec fn midi_freq(note: int) -> int {
    let d = clamp_int(note, 0, NOTE_MAX as int) + 3;
    let octave = d / 12;
    let k = d % 12;
    let up = octave_factor(octave - 6);
    let down = octave_factor(6 - octave);
    (CONCERT_PITCH * semitone_ratio(k) * up + (UNIT * down) / 2) / (UNIT * down)
}

/// Every entry of the semitone table is the nearest billionth to the true
/// ratio: the twelfth powers of the entry taken half a billionth lower and
/// half a billionth higher enclose two raised to `k`.
pub proof fn lemma_semitone_table_is_nearest(k: int)
    requires
        0 <= k <= 12,
    ensures
        twelfth_power(2 * semitone_ratio(k) - 1) < octave_factor(k) * twelfth_power(2 * UNIT),
        octave_factor(k) * twelfth_power(2 * UNIT) < twelfth_power(2 * semitone_ratio(k) + 1),
{
    if k == 0 {
        assert(twelfth_power(1999999999) < 1 * twelfth_power(2_000_000_000)) by (nonlinear_arith);
        assert(1 * twelfth_power(2_000_000_000) < twelfth_power(2000000001)) by (nonlinear_arith);
    } else if k == 1 {
        assert(twelfth_power(2118926187) < 2 * twelfth_power(2_000_000_000)) by (nonlinear_arith);
        assert(2 * twelfth_power(2_000_000_000) < twelfth_power(2118926189)) by (nonlinear_arith);
    } else if k == 2 {
        assert(twelfth_power(2244924095) < 4 * twelfth_power(2_000_000_000)) by (nonlinear_arith);
        assert(4 * twelfth_power(2_000_000_000) < twelfth_power(2244924097)) by (nonlinear_arith);
    } else if k == 3 {
        assert(twelfth_power(2378414229) < 8 * twelfth_power(2_000_000_000)) by (nonlinear_arith);
        assert(8 * twelfth_power(2_000_000_000) < twelfth_power(2378414231)) by (nonlinear_arith);
    } else if k == 4 {
        assert(twelfth_power(2519842099) < 16 * twelfth_power(2_000_000_000)) by (nonlinear_arith);
        assert(16 * twelfth_power(2_000_000_000) < twelfth_power(2519842101)) by (nonlinear_arith);
    } else if k == 5 {
        assert(twelfth_power(2669679707) < 32 * twelfth_power(2_000_000_000)) by (nonlinear_arith);
        assert(32 * twelfth_power(2_000_000_000) < twelfth_power(2669679709)) by (nonlinear_arith);
    } else if k == 6 {
        assert(twelfth_power(2828427123) < 64 * twelfth_power(2_000_000_000)) by (nonlinear_arith);
        assert(64 * twelfth_power(2_000_000_000) < twelfth_power(2828427125)) by (nonlinear_arith);
    } else if k == 7 {
        assert(twelfth_power(2996614153) < 128 * twelfth_power(2_000_000_000)) by (nonlinear_arith);
        assert(128 * twelfth_power(2_000_000_000) < twelfth_power(2996614155)) by (nonlinear_arith);
    } else if k == 8 {
        assert(twelfth_power(3174802103) < 256 * twelfth_power(2_000_000_000)) by (nonlinear_arith);
        assert(256 * twelfth_power(2_000_000_000) < twelfth_power(3174802105)) by (nonlinear_arith);
    } else if k == 9 {
        assert(twelfth_power(3363585661) < 512 * twelfth_power(2_000_000_000)) by (nonlinear_arith);
        assert(512 * twelfth_power(2_000_000_000) < twelfth_power(3363585663)) by (nonlinear_arith);
    } else if k == 10 {
        assert(twelfth_power(3563594871) < 1024 * twelfth_power(2_000_000_000)) by (nonlinear_arith);
        assert(1024 * twelfth_power(2_000_000_000) < twelfth_power(3563594873)) by (nonlinear_arith);
    } else if k == 11 {
        assert(twelfth_power(3775497249) < 2048 * twelfth_power(2_000_000_000)) by (nonlinear_arith);
        assert(2048 * twelfth_power(2_000_000_000) < twelfth_power(3775497251)) by (nonlinear_arith);
    } else {
        assert(twelfth_power(3999999999) < 4096 * twelfth_power(2_000_000_000)) by (nonlinear_arith);
        assert(4096 * twelfth_power(2_000_000_000) < twelfth_power(4000000001)) by (nonlinear_arith);
    }
}

/// The semitone table rises strictly, from one to two.
pub proof fn lemma_semitone_table_rises(k: int)
    requires
        0 <= k < 12,
    ensures
        semitone_ratio(0) == UNIT,
        semitone_ratio(12) == 2 * UNIT,
        semitone_ratio(k) < semitone_ratio(k + 1),
{
}

/// The table of cents rises strictly, from one to just below a semitone.
pub proof fn lemma_cent_table_rises(k: int)
    requires
        0 <= k < 99,
    ensures
        cent_ratio(0) == UNIT,
        cent_ratio(k) < cent_ratio(k + 1),
        cent_ratio(99) < semitone_ratio(1),
{
}

/// The ratio of the cents inside one octave lies between one and just
/// above two. (Hundred cents short of the octave it is just below two;
/// the rounding of two table entries can lift the very last ratios to
/// two and a little.)
pub proof fn lemma_octave_ratio_bounds(r: int)
    requires
        0 <= r < 1200,
    ensures
        UNIT <= octave_ratio(r) <= 2_100_000_000,
{
    let s = semitone_ratio(r / 100);
    let c = cent_ratio(r % 100);
    assert(0 <= r / 100 < 12);
    assert(UNIT <= s <= 1_887_748_625);
    assert(UNIT <= c <= 1_058_851_302);
    assert(UNIT * UNIT <= s * c <= 1_887_748_625 * 1_058_851_302) by (nonlinear_arith)
        requires
            UNIT <= s <= 1_887_748_625,
            UNIT <= c <= 1_058_851_302,
            UNIT == 1_000_000_000,
    ;
}

/// A detune factor is positive and fits the numbers that hold it.
pub proof fn lemma_detune_ratio_bounds(cents: int)
    ensures
        0 < detune_ratio(cents) <= 8_601_600_000_000,
{
    let c = clamp_int(cents, -DETUNE_MAX, DETUNE_MAX as int);
    let octaves = c / 1200;
    let base = octave_ratio(c % 1200);
    lemma_octave_ratio_bounds(c % 1200);
    assert(-12 <= octaves <= 12);
    if octaves >= 0 {
        let f = octave_factor(octaves);
        assert(1 <= f <= 4096);
        assert(base <= base * f <= 2_100_000_000 * 4096) by (nonlinear_arith)
            requires
                1 <= f <= 4096,
                0 <= base <= 2_100_000_000,
        ;
    } else {
        let f = octave_factor(-octaves);
        assert(1 <= f <= 4096);
        assert(0 < (base + f / 2) / f <= base + 2048) by (nonlinear_arith)
            requires
                1 <= f <= 4096,
                1_000_000_000 <= base,
        ;
    }
}

/// No detune leaves a frequency as it is; an octave of detune doubles or
/// halves it; a hundred cents are a semitone.
pub proof fn lemma_detune_ratio_landmarks()
    ensures
        detune_ratio(0) == UNIT,
        detune_ratio(1200) == 2 * UNIT,
        detune_ratio(-1200) == UNIT / 2,
        detune_ratio(100) == semitone_ratio(1),
        detune_ratio(700) == semitone_ratio(7),
{
    assert(semitone_ratio(0) * cent_ratio(0) == 1_000_000_000_000_000_000) by (nonlinear_arith)
        requires
            semitone_ratio(0) == 1_000_000_000,
            cent_ratio(0) == 1_000_000_000,
    ;
    assert(semitone_ratio(1) * cent_ratio(0) == 1_059_463_094_000_000_000) by (nonlinear_arith)
        requires
            semitone_ratio(1) == 1_059_463_094,
            cent_ratio(0) == 1_000_000_000,
    ;
    assert(semitone_ratio(7) * cent_ratio(0) == 1_498_307_077_000_000_000) by (nonlinear_arith)
        requires
            semitone_ratio(7) == 1_498_307_077,
            cent_ratio(0) == 1_000_000_000,
    ;
    assert(octave_ratio(0) == 1_000_000_000);
    assert(octave_ratio(100) == 1_059_463_094);
    assert(octave_ratio(700) == 1_498_307_077);
    assert(0int / 1200 == 0 && 0int % 1200 == 0);
    assert(1200int / 1200 == 1 && 1200int % 1200 == 0);
    assert((-1200int) / 1200 == -1 && (-1200int) % 1200 == 0);
    assert(100int / 1200 == 0 && 100int % 1200 == 100);
    assert(700int / 1200 == 0 && 700int % 1200 == 700);
    assert(octave_factor(0) == 1 && octave_factor(1) == 2);
    assert(1_000_000_000 * 1 == 1_000_000_000 && 1_000_000_000 * 2 == 2_000_000_000);
    assert((1_000_000_000int + 1) / 2 == 500_000_000);
}

/// Note 69 sounds at 440 Hz, the note an octave above at 880 Hz and the
/// note an octave below at 220 Hz.
pub proof fn lemma_concert_pitch()
    ensures
        midi_freq(69) == 440_000_000,
        midi_freq(81) == 880_000_000,
        midi_freq(57) == 220_000_000,
{
    assert(72int / 12 == 6 && 72int % 12 == 0);
    assert(84int / 12 == 7 && 84int % 12 == 0);
    assert(60int / 12 == 5 && 60int % 12 == 0);
    assert(octave_factor(0) == 1 && octave_factor(-1) == 1 && octave_factor(1) == 2);
    assert(440_000_000_500_000_000int / 1_000_000_000 == 440_000_000);
    assert(880_000_000_500_000_000int / 1_000_000_000 == 880_000_000);
    assert(UNIT * 2 == 2_000_000_000 && 440_000_000 * UNIT + (UNIT * 2) / 2
        == 440_000_001_000_000_000);
    assert(440_000_001_000_000_000int / 2_000_000_000 == 220_000_000);
    assert(CONCERT_PITCH * semitone_ratio(0) * octave_factor(0) == 440_000_000 * UNIT)
        by (nonlinear_arith)
        requires
            semitone_ratio(0) == UNIT,
            octave_factor(0) == 1,
    ;
    assert(CONCERT_PITCH * semitone_ratio(0) * octave_factor(1) == 880_000_000 * UNIT)
        by (nonlinear_arith)
        requires
            semitone_ratio(0) == UNIT,
            octave_factor(1) == 2,
    ;
    assert(CONCERT_PITCH * semitone_ratio(0) * octave_factor(-1) == 440_000_000 * UNIT)
        by (nonlinear_arith)
        requires
            semitone_ratio(0) == UNIT,
            octave_factor(-1) == 1,
    ;
}

/// Every note frequency is positive: the lowest lies above 6.8 Hz and the
/// highest below 14.1 kHz.
pub proof fn lemma_midi_freq_bounds(note: int)
    ensures
        6_875_000 <= midi_freq(note) <= 14_080_000_001,
{
    let d = clamp_int(note, 0, NOTE_MAX as int) + 3;
    let octave = d / 12;
    let k = d % 12;
    let ratio = semitone_ratio(k);
    let up = octave_factor(octave - 6);
    let down = octave_factor(6 - octave);
    assert(0 <= octave <= 10);
    assert(0 <= k < 12);
    assert(UNIT <= ratio < 2 * UNIT);
    assert(1 <= up <= 16);
    assert(1 <= down <= 64);
    let p = CONCERT_PITCH * ratio * up;
    assert(440_000_000 * UNIT <= p <= 440_000_000 * (2 * UNIT) * 16) by (nonlinear_arith)
        requires
            p == CONCERT_PITCH * ratio * up,
            UNIT <= ratio < 2 * UNIT,
            1 <= up <= 16,
    ;
    let den = UNIT * down;
    let num = p + den / 2;
    vstd::arithmetic::div_mod::lemma_div_is_ordered_by_denominator(num, UNIT as int, den);
    vstd::arithmetic::div_mod::lemma_div_is_ordered_by_denominator(num, den, 64 * UNIT);
}

/// The entry of the semitone table for `k` semitones.
pub fn semitone(k: i64) -> (r: i64)
    ensures
        r == semitone_ratio(k as int),
        UNIT <= r <= 2 * UNIT,
{
    if k <= 0 {
        1_000_000_000
    } else if k == 1 {
        1_059_463_094
    } else if k == 2 {
        1_122_462_048
    } else if k == 3 {
        1_189_207_115
    } else if k == 4 {
        1_259_921_050
    } else if k == 5 {
        1_334_839_854
    } else if k == 6 {
        1_414_213_562
    } else if k == 7 {
        1_498_307_077
    } else if k == 8 {
        1_587_401_052
    } else if k == 9 {
        1_681_792_831
    } else if k == 10 {
        1_781_797_436
    } else if k == 11 {
        1_887_748_625
    } else {
        2_000_000_000
    }
}

/// Two raised to `e`, for `e` from 0 to 12.
pub fn octave_multiplier(e: i64) -> (r: i64)
    ensures
        r == octave_factor(e as int),
        1 <= r <= 4096,
        e <= 6 ==> r <= 64,
{
    if e <= 0 {
        1
    } else if e == 1 {
        2
    } else if e == 2 {
        4
    } else if e == 3 {
        8
    } else if e == 4 {
        16
    } else if e == 5 {
        32
    } else if e == 6 {
        64
    } else if e == 7 {
        128
    } else if e == 8 {
        256
    } else if e == 9 {
        512
    } else if e == 10 {
        1024
    } else if e == 11 {
        2048
    } else {
        4096
    }
}

/// The entry of the table of cents for `k` cents.
pub fn cent(k: i64) -> (r: i64)
    ensures
        r == cent_ratio(k as int),
        UNIT <= r <= 1_058_851_302,
{
    if k <= 0 {
        1_000_000_000
    } else if k == 1 {
        1_000_577_790
    } else if k == 2 {
        1_001_155_913
    } else if k == 3 {
        1_001_734_370
    } else if k == 4 {
        1_002_313_162
    } else if k == 5 {
        1_002_892_288
    } else if k == 6 {
        1_003_471_749
    } else if k == 7 {
        1_004_051_544
    } else if k == 8 {
        1_004_631_674
    } else if k == 9 {
        1_005_212_140
    } else if k == 10 {
        1_005_792_941
    } else if k == 11 {
        1_006_374_078
    } else if k == 12 {
        1_006_955_550
    } else if k == 13 {
        1_007_537_358
    } else if k == 14 {
        1_008_119_503
    } else if k == 15 {
        1_008_701_984
    } else if k == 16 {
        1_009_284_801
    } else if k == 17 {
        1_009_867_955
    } else if k == 18 {
        1_010_451_446
    } else if k == 19 {
        1_011_035_275
    } else if k == 20 {
        1_011_619_440
    } else if k == 21 {
        1_012_203_943
    } else if k == 22 {
        1_012_788_784
    } else if k == 23 {
        1_013_373_963
    } else if k == 24 {
        1_013_959_480
    } else if k == 25 {
        1_014_545_335
    } else if k == 26 {
        1_015_131_529
    } else if k == 27 {
        1_015_718_061
    } else if k == 28 {
        1_016_304_932
    } else if k == 29 {
        1_016_892_142
    } else if k == 30 {
        1_017_479_692
    } else if k == 31 {
        1_018_067_581
    } else if k == 32 {
        1_018_655_810
    } else if k == 33 {
        1_019_244_379
    } else if k == 34 {
        1_019_833_287
    } else if k == 35 {
        1_020_422_536
    } else if k == 36 {
        1_021_012_126
    } else if k == 37 {
        1_021_602_056
    } else if k == 38 {
        1_022_192_327
    } else if k == 39 {
        1_022_782_939
    } else if k == 40 {
        1_023_373_892
    } else if k == 41 {
        1_023_965_187
    } else if k == 42 {
        1_024_556_823
    } else if k == 43 {
        1_025_148_801
    } else if k == 44 {
        1_025_741_121
    } else if k == 45 {
        1_026_333_784
    } else if k == 46 {
        1_026_926_789
    } else if k == 47 {
        1_027_520_136
    } else if k == 48 {
        1_028_113_827
    } else if k == 49 {
        1_028_707_860
    } else if k == 50 {
        1_029_302_237
    } else if k == 51 {
        1_029_896_957
    } else if k == 52 {
        1_030_492_020
    } else if k == 53 {
        1_031_087_428
    } else if k == 54 {
        1_031_683_179
    } else if k == 55 {
        1_032_279_275
    } else if k == 56 {
        1_032_875_715
    } else if k == 57 {
        1_033_472_500
    } else if k == 58 {
        1_034_069_629
    } else if k == 59 {
        1_034_667_104
    } else if k == 60 {
        1_035_264_924
    } else if k == 61 {
        1_035_863_089
    } else if k == 62 {
        1_036_461_600
    } else if k == 63 {
        1_037_060_457
    } else if k == 64 {
        1_037_659_659
    } else if k == 65 {
        1_038_259_208
    } else if k == 66 {
        1_038_859_103
    } else if k == 67 {
        1_039_459_345
    } else if k == 68 {
        1_040_059_934
    } else if k == 69 {
        1_040_660_870
    } else if k == 70 {
        1_041_262_153
    } else if k == 71 {
        1_041_863_783
    } else if k == 72 {
        1_042_465_761
    } else if k == 73 {
        1_043_068_087
    } else if k == 74 {
        1_043_670_760
    } else if k == 75 {
        1_044_273_782
    } else if k == 76 {
        1_044_877_153
    } else if k == 77 {
        1_045_480_872
    } else if k == 78 {
        1_046_084_940
    } else if k == 79 {
        1_046_689_357
    } else if k == 80 {
        1_047_294_123
    } else if k == 81 {
        1_047_899_238
    } else if k == 82 {
        1_048_504_704
    } else if k == 83 {
        1_049_110_519
    } else if k == 84 {
        1_049_716_684
    } else if k == 85 {
        1_050_323_199
    } else if k == 86 {
        1_050_930_065
    } else if k == 87 {
        1_051_537_281
    } else if k == 88 {
        1_052_144_848
    } else if k == 89 {
        1_052_752_766
    } else if k == 90 {
        1_053_361_036
    } else if k == 91 {
        1_053_969_657
    } else if k == 92 {
        1_054_578_630
    } else if k == 93 {
        1_055_187_954
    } else if k == 94 {
        1_055_797_631
    } else if k == 95 {
        1_056_407_659
    } else if k == 96 {
        1_057_018_041
    } else if k == 97 {
        1_057_628_774
    } else if k == 98 {
        1_058_239_861
    } else {
        1_058_851_301
    }
}

/// The factor by which a detune of `cents` multiplies a frequency.
pub fn detune_factor(cents: i64) -> (r: i64)
    ensures
        r == detune_ratio(cents as int),
        0 < r <= 8_601_600_000_000,
{
    let c: i64 = clamp(cents, -DETUNE_MAX, DETUNE_MAX);
    let shifted: i64 = c + DETUNE_MAX;
    let octaves: i64 = shifted / 1200 - 12;
    let rest: i64 = shifted % 1200;
    let s: i64 = semitone(rest / 100);
    let k: i64 = cent(rest % 100);
    proof {
        lemma_detune_ratio_bounds(cents as int);
        lemma_octave_ratio_bounds(rest as int);
        assert(octaves == (c as int) / 1200);
        assert(rest == (c as int) % 1200);
        assert(0 <= s * k <= 2_000_000_000 * 1_058_851_302) by (nonlinear_arith)
            requires
                0 <= s <= 2_000_000_000,
                0 <= k <= 1_058_851_302,
        ;
    }
    let base: i64 = (s * k + 500_000_000) / 1_000_000_000;
    if octaves >= 0 {
        let f: i64 = octave_multiplier(octaves);
        assert(0 <= base * f <= 2_100_000_000 * 4096) by (nonlinear_arith)
            requires
                1 <= f <= 4096,
                0 <= base <= 2_100_000_000,
        ;
        base * f
    } else {
        let f: i64 = octave_multiplier(-octaves);
        (base + f / 2) / f
    }
}

/// The frequency of a note number, in microhertz.
pub fn midi_to_freq(midi: u8) -> (f: i64)
    ensures
        f == midi_freq(midi as int),
        6_875_000 <= f <= 14_080_000_001,
{
    let note: i64 = if midi > NOTE_MAX {
        NOTE_MAX as i64
    } else {
        midi as i64
    };
    let d: i64 = note + 3;
    let octave: i64 = d / 12;
    let k: i64 = d % 12;
    let up: i64 = octave_multiplier(octave - 6);
    let down: i64 = octave_multiplier(6 - octave);
    let ratio: i64 = semitone(k);
    proof {
        lemma_midi_freq_bounds(midi as int);
        assert(0 <= ratio * up <= 2 * UNIT * 64) by (nonlinear_arith)
            requires
                0 <= ratio <= 2 * UNIT,
                0 <= up <= 64,
        ;
        assert(CONCERT_PITCH * semitone_ratio(k as int) * up == CONCERT_PITCH * (ratio * up))
            by (nonlinear_arith)
            requires
                ratio == semitone_ratio(k as int),
        ;
        assert(0 <= CONCERT_PITCH * (ratio * up) <= 440_000_000 * (2 * UNIT * 64))
            by (nonlinear_arith)
            requires
                0 <= ratio * up <= 2 * UNIT * 64,
                CONCERT_PITCH == 440_000_000,
        ;
    }
    let scaled: i64 = ratio * up;
    let wide: i128 = crate::fixed::wide_product(CONCERT_PITCH, scaled);
    ((wide + ((UNIT * down) / 2) as i128) / ((UNIT * down) as i128)) as i64
}

} // verus!
