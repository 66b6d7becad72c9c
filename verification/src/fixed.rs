//! Fixed-point arithmetic shared by every signal-processing component.
//!
//! Amplitudes, gains, levels and ratios are integers that count billionths:
//! the integer `UNIT` stands for 1.0. Frequencies are integers that count
//! microhertz, and times are integers that count milliseconds.

use vstd::prelude::*;

verus! {

/// The integer that stands for 1.0.
pub const UNIT: i64 = 1_000_000_000;

/// The largest magnitude a signal value may take (it stands for 1000.0).
/// Sums and products that would leave this range are held at its edge.
pub const SAMPLE_LIMIT: i64 = 1_000_000_000_000;

/// The lowest sample rate a component accepts, in hertz: the rate is a
/// divisor, so it cannot be 0.
pub const SAMPLE_RATE_MIN: u32 = 1;

/// The highest sample rate a component accepts, in hertz: the delay lines
/// of the effects hold up to ten seconds, and their samples must fit the
/// memory.
pub const SAMPLE_RATE_MAX: u32 = 192_000;

/// `x` limited to the closed interval from `lo` to `hi`.
pub open spec fn clamp_int(x: int, lo: int, hi: int) -> int {
    if x < lo {
        lo
    } else if x > hi {
        hi
    } else {
        x
    }
}

/// `x` limited to the signal range.
pub open spec fn sat(x: int) -> int {
    clamp_int(x, -SAMPLE_LIMIT, SAMPLE_LIMIT as int)
}

/// The quotient of `p` by a positive `d`, rounded toward zero.
pub open spec fn trunc_div(p: int, d: int) -> int {
    if p >= 0 {
        p / d
    } else {
        -((-p) / d)
    }
}

/// The fixed-point product of `a` and `b`: their product divided by `UNIT`,
/// rounded toward zero.
pub open spec fn scale(a: int, b: int) -> int {
    trunc_div(a * b, UNIT as int)
}

/// The blend of a dry and a wet signal: the dry one weighted by `1 - mix`
/// and the wet one by `mix`, with `mix` limited to the range from 0 to 1
/// and the sum held inside the signal range.
pub open spec fn crossfade(mix: int, dry: int, wet: int) -> int {
    let m = clamp_int(mix, 0, UNIT as int);
    sat(scale(UNIT - m, dry) + scale(m, wet))
}

/// The sample rate a component runs at when asked for `requested` hertz:
/// the request limited to the supported range.
pub open spec fn accepted_rate(requested: int) -> int {
    clamp_int(requested, SAMPLE_RATE_MIN as int, SAMPLE_RATE_MAX as int)
}

/// The number of whole samples that `ms` milliseconds last at `sample_rate` hertz.
pub open spec fn samples_in(ms: int, sample_rate: int) -> int {
    ms * sample_rate / 1000
}

/// Whether every sample of a buffer lies inside the signal range.
pub open spec fn in_range(buffer: Seq<i64>) -> bool {
    forall|i: int| 0 <= i < buffer.len() ==> -SAMPLE_LIMIT <= #[trigger] buffer[i] <= SAMPLE_LIMIT
}

/// `x` if it is not negative, else 0.
pub open spec fn positive_part(x: int) -> int {
    if x < 0 {
        0
    } else {
        x
    }
}

/// A fraction of a value is no larger than the value and has its sign.
pub proof fn lemma_scale_fraction(a: int, b: int)
    requires
        0 <= a <= UNIT,
    ensures
        b >= 0 ==> 0 <= scale(a, b) <= b,
        b <= 0 ==> b <= scale(a, b) <= 0,
        scale(a, b) == -scale(a, -b),
{
    if b >= 0 {
        assert(0 <= a * b <= UNIT * b) by (nonlinear_arith)
            requires
                0 <= a <= UNIT,
                b >= 0,
        ;
    } else {
        assert(0 <= a * (-b) <= UNIT * (-b)) by (nonlinear_arith)
            requires
                0 <= a <= UNIT,
                b < 0,
        ;
    }
    assert(a * (-b) == -(a * b)) by (nonlinear_arith);
}

/// Scaling by one changes nothing, and scaling by zero gives zero.
pub proof fn lemma_scale_identities(b: int)
    ensures
        scale(UNIT as int, b) == b,
        scale(0, b) == 0,
        scale(b, 0) == 0,
        scale(b, UNIT as int) == b,
{
    assert(b * UNIT == UNIT * b) by (nonlinear_arith);
    assert(b * 0 == 0) by (nonlinear_arith);
    assert(0 * b == 0) by (nonlinear_arith);
}

/// The product of two bounded values is bounded by the product of the bounds.
pub proof fn lemma_scale_bound(a: int, b: int, ka: int, kb: int)
    requires
        -ka <= a <= ka,
        -kb <= b <= kb,
    ensures
        -(ka * kb) <= a * b <= ka * kb,
        -((ka * kb) / (UNIT as int)) <= scale(a, b) <= (ka * kb) / (UNIT as int),
{
    assert(-(ka * kb) <= a * b <= ka * kb) by (nonlinear_arith)
        requires
            -ka <= a <= ka,
            -kb <= b <= kb,
    ;
}

/// Scaling by a non-negative factor keeps the order of the scaled values.
pub proof fn lemma_scale_monotonic(a: int, b1: int, b2: int)
    requires
        0 <= a,
        b1 <= b2,
    ensures
        scale(a, b1) <= scale(a, b2),
{
    assert(a * b1 <= a * b2) by (nonlinear_arith)
        requires
            0 <= a,
            b1 <= b2,
    ;
}

/// Limits `x` to the closed interval from `lo` to `hi`.
pub fn clamp(x: i64, lo: i64, hi: i64) -> (r: i64)
    requires
        lo <= hi,
    ensures
        r == clamp_int(x as int, lo as int, hi as int),
{
    if x < lo {
        lo
    } else if x > hi {
        hi
    } else {
        x
    }
}

/// `x` if it is not negative, else 0.
pub fn at_least_zero(x: i64) -> (r: i64)
    ensures
        r == positive_part(x as int),
{
    if x < 0 {
        0
    } else {
        x
    }
}

/// Limits a wide intermediate result to the signal range.
pub fn saturate(x: i128) -> (r: i64)
    ensures
        r == sat(x as int),
{
    if x < -(SAMPLE_LIMIT as i128) {
        -SAMPLE_LIMIT
    } else if x > SAMPLE_LIMIT as i128 {
        SAMPLE_LIMIT
    } else {
        x as i64
    }
}

/// Limits a wide intermediate result to the closed interval from `lo` to `hi`.
pub fn clamp_wide(x: i128, lo: i64, hi: i64) -> (r: i64)
    requires
        lo <= hi,
    ensures
        r == clamp_int(x as int, lo as int, hi as int),
{
    if x < lo as i128 {
        lo
    } else if x > hi as i128 {
        hi
    } else {
        x as i64
    }
}

/// The exact product of two machine integers, which always fits the wide type.
pub fn wide_product(a: i64, b: i64) -> (p: i128)
    ensures
        p == a * b,
{
    assert(-0x4000_0000_0000_0000_0000_0000_0000_0000 <= a * b
        <= 0x4000_0000_0000_0000_0000_0000_0000_0000) by (nonlinear_arith)
        requires
            -0x8000_0000_0000_0000 <= a <= 0x8000_0000_0000_0000,
            -0x8000_0000_0000_0000 <= b <= 0x8000_0000_0000_0000,
    ;
    (a as i128) * (b as i128)
}

/// The fixed-point product of `a` and `b`, before it is limited to any range.
pub fn wide_scale(a: i64, b: i64) -> (r: i128)
    ensures
        r == scale(a as int, b as int),
{
    let p: i128 = wide_product(a, b);
    p / (UNIT as i128)
}

/// The fixed-point product of `a` and `b`, limited to the signal range.
pub fn mul_sat(a: i64, b: i64) -> (r: i64)
    ensures
        r == sat(scale(a as int, b as int)),
{
    saturate(wide_scale(a, b))
}

/// The sum of `a` and `b`, limited to the signal range.
pub fn add_sat(a: i64, b: i64) -> (r: i64)
    ensures
        r == sat(a + b),
{
    saturate(a as i128 + b as i128)
}

/// The blend of a dry and a wet signal.
pub fn blend(mix: i64, dry: i64, wet: i64) -> (r: i64)
    ensures
        r == crossfade(mix as int, dry as int, wet as int),
        -SAMPLE_LIMIT <= r <= SAMPLE_LIMIT,
{
    let m: i64 = clamp(mix, 0, UNIT);
    proof {
        lemma_scale_fraction(UNIT - m, dry as int);
        lemma_scale_fraction(m as int, wet as int);
    }
    saturate(wide_scale(UNIT - m, dry) + wide_scale(m, wet))
}

/// Limits a requested sample rate to the supported range.
pub fn accept_rate(requested: u32) -> (r: i64)
    ensures
        r == accepted_rate(requested as int),
        SAMPLE_RATE_MIN <= r <= SAMPLE_RATE_MAX,
{
    if requested < SAMPLE_RATE_MIN {
        SAMPLE_RATE_MIN as i64
    } else if requested > SAMPLE_RATE_MAX {
        SAMPLE_RATE_MAX as i64
    } else {
        requested as i64
    }
}

/// The number of whole samples that `ms` milliseconds last at `sample_rate` hertz.
pub fn samples_for(ms: i64, sample_rate: i64) -> (n: i64)
    requires
        0 <= ms <= 1_000_000,
        0 <= sample_rate <= SAMPLE_RATE_MAX,
    ensures
        n == samples_in(ms as int, sample_rate as int),
        0 <= n <= ms * 192,
{
    assert(0 <= ms * sample_rate <= ms * 192_000) by (nonlinear_arith)
        requires
            0 <= ms,
            0 <= sample_rate <= 192_000,
    ;
    ms * sample_rate / 1000
}

} // verus!
