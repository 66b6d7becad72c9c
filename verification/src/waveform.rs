//! Periodic waveforms and the phase accumulator that drives them.
//!
//! A phase accumulator counts in microhertz-samples: one cycle is
//! `sample_rate * 1000000` counts, so that a frequency in microhertz is
//! exactly the number of counts to advance per sample.

use vstd::prelude::*;
use crate::fixed::UNIT;

verus! {

/// The shape of one cycle of a periodic signal.
#[derive(Clone, Copy, PartialEq, Eq, Structural, Debug)]
pub enum Waveform {
    Sine,
    Square,
    Sawtooth,
    Triangle,
}

impl Waveform {
    /// The waveform that a selector code stands for: 0 is the sine, 1 the
    /// square, 2 the sawtooth, and 3 the triangle. A code above 3 counts as 3.
    pub open spec fn of_code(code: int) -> Waveform {
        if code <= 0 {
            Waveform::Sine
        } else if code == 1 {
            Waveform::Square
        } else if code == 2 {
            Waveform::Sawtooth
        } else {
            Waveform::Triangle
        }
    }

    /// The waveform that a selector code stands for.
    pub fn from_code(code: u8) -> (w: Waveform)
        ensures
            w == Waveform::of_code(code as int),
    {
        if code == 0 {
            Waveform::Sine
        } else if code == 1 {
            Waveform::Square
        } else if code == 2 {
            Waveform::Sawtooth
        } else {
            Waveform::Triangle
        }
    }
}

/// One arch of the sine over half a cycle, by the rational approximation
/// `16 y / (5 - 4 y)` with `y = x (1 - x)`; `x` runs from 0 to `UNIT`.
pub open spec fn sine_arch(x: int) -> int {
    let y = x * (UNIT - x) / 1_000_000_000;
    16 * y * UNIT / (5 * UNIT - 4 * y)
}

/// The sine at the fraction `phi` of a cycle (`phi` in billionths).
pub open spec fn sine_value(phi: int) -> int {
    if phi < UNIT / 2 {
        sine_arch(2 * phi)
    } else {
        -sine_arch(2 * phi - UNIT)
    }
}

/// The square wave: high over the first half of the cycle, low over the second.
pub open spec fn square_value(phi: int) -> int {
    if phi < UNIT / 2 {
        UNIT as int
    } else {
        -UNIT
    }
}

/// The rising sawtooth, from -1 at the start of the cycle towards 1 at its end.
pub open spec fn sawtooth_value(phi: int) -> int {
    2 * phi - UNIT
}

/// The triangle wave, which starts at 0, peaks after a quarter of the cycle
/// and bottoms out after three quarters of it.
pub open spec fn triangle_value(phi: int) -> int {
    if phi < UNIT / 4 {
        4 * phi
    } else if phi < 3 * (UNIT / 4) {
        2 * UNIT - 4 * phi
    } else {
        4 * phi - 4 * UNIT
    }
}

/// The value of waveform `w` at the fraction `phi` of a cycle.
pub open spec fn wave_value(w: Waveform, phi: int) -> int {
    match w {
        Waveform::Sine => sine_value(phi),
        Waveform::Square => square_value(phi),
        Waveform::Sawtooth => sawtooth_value(phi),
        Waveform::Triangle => triangle_value(phi),
    }
}

/// A bipolar value moved into the range from 0 to 1.
pub open spec fn unipolar(v: int) -> int {
    (v + UNIT) / 2
}

/// The number of accumulator counts in one cycle at `sample_rate` hertz.
pub open spec fn period_of(sample_rate: int) -> int {
    sample_rate * 1_000_000
}

/// The accumulator after it has advanced by `increment` counts and wrapped.
pub open spec fn advance(phase: int, increment: int, period: int) -> int {
    (phase + increment) % period
}

/// The fraction of the cycle that the accumulator has covered, in billionths.
pub open spec fn phase_fraction(phase: int, period: int) -> int {
    phase * UNIT / period
}

/// The arch of the sine stays between 0 and 1.
pub proof fn lemma_sine_arch_bounds(x: int)
    requires
        0 <= x <= UNIT,
    ensures
        0 <= x * (UNIT - x) <= 250_000_000_000_000_000,
        0 <= sine_arch(x) <= UNIT,
{
    assert(0 <= x * (UNIT - x) <= 250_000_000_000_000_000) by (nonlinear_arith)
        requires
            0 <= x <= 1_000_000_000,
            UNIT == 1_000_000_000,
    ;
    let y = x * (UNIT - x) / 1_000_000_000;
    assert(0 <= y <= 250_000_000);
    let num = 16 * y * UNIT;
    let den = 5 * UNIT - 4 * y;
    assert(4 * UNIT <= den);
    assert(0 <= num <= den * UNIT) by (nonlinear_arith)
        requires
            num == 16 * y * UNIT,
            den == 5 * UNIT - 4 * y,
            0 <= y <= 250_000_000,
            UNIT == 1_000_000_000,
    ;
    assert(0 <= num / den <= UNIT) by (nonlinear_arith)
        requires
            0 <= num <= den * UNIT,
            0 < den,
    ;
}

/// Every waveform stays between -1 and 1.
pub proof fn lemma_wave_value_bounds(w: Waveform, phi: int)
    requires
        0 <= phi < UNIT,
    ensures
        -UNIT <= wave_value(w, phi) <= UNIT,
        0 <= unipolar(wave_value(w, phi)) <= UNIT,
{
    if phi < UNIT / 2 {
        lemma_sine_arch_bounds(2 * phi);
    } else {
        lemma_sine_arch_bounds(2 * phi - UNIT);
    }
}

/// A wrapped accumulator lies inside the cycle, and so does its fraction.
pub proof fn lemma_phase_bounds(phase: int, increment: int, period: int)
    requires
        0 <= phase < period,
        0 <= increment,
    ensures
        0 <= advance(phase, increment, period) < period,
        0 <= phase_fraction(phase, period) < UNIT,
{
    assert(0 <= (phase + increment) % period < period) by (nonlinear_arith)
        requires
            0 < period,
            0 <= phase + increment,
    ;
    assert(0 <= phase * UNIT < period * UNIT) by (nonlinear_arith)
        requires
            0 <= phase < period,
            UNIT == 1_000_000_000,
    ;
    assert(0 <= (phase * UNIT) / period < UNIT) by (nonlinear_arith)
        requires
            0 <= phase * UNIT < period * UNIT,
            0 < period,
    ;
}

/// The arch of the sine over half a cycle.
fn arch(x: i64) -> (r: i64)
    requires
        0 <= x <= UNIT,
    ensures
        r == sine_arch(x as int),
        0 <= r <= UNIT,
{
    proof {
        lemma_sine_arch_bounds(x as int);
    }
    let y: i64 = x * (UNIT - x) / 1_000_000_000;
    16 * y * UNIT / (5 * UNIT - 4 * y)
}

/// The value of waveform `w` at the fraction `phi` of a cycle.
pub fn wave_sample(w: Waveform, phi: i64) -> (r: i64)
    requires
        0 <= phi < UNIT,
    ensures
        r == wave_value(w, phi as int),
        -UNIT <= r <= UNIT,
{
    match w {
        Waveform::Sine => {
            if phi < UNIT / 2 {
                arch(2 * phi)
            } else {
                -arch(2 * phi - UNIT)
            }
        },
        Waveform::Square => {
            if phi < UNIT / 2 {
                UNIT
            } else {
                -UNIT
            }
        },
        Waveform::Sawtooth => 2 * phi - UNIT,
        Waveform::Triangle => {
            if phi < UNIT / 4 {
                4 * phi
            } else if phi < 3 * (UNIT / 4) {
                2 * UNIT - 4 * phi
            } else {
                4 * phi - 4 * UNIT
            }
        },
    }
}

/// Advances an accumulator by `increment` counts and wraps it into the cycle.
pub fn advance_phase(phase: i64, increment: i128, period: i64) -> (r: i64)
    requires
        0 <= phase < period,
        0 <= increment <= 0x1_0000_0000_0000_0000_0000_0000_0000,
    ensures
        r == advance(phase as int, increment as int, period as int),
        0 <= r < period,
{
    proof {
        lemma_phase_bounds(phase as int, increment as int, period as int);
    }
    ((phase as i128 + increment) % (period as i128)) as i64
}

/// The fraction of the cycle that an accumulator has covered.
pub fn fraction_of(phase: i64, period: i64) -> (r: i64)
    requires
        0 <= phase < period,
    ensures
        r == phase_fraction(phase as int, period as int),
        0 <= r < UNIT,
{
    proof {
        lemma_phase_bounds(phase as int, 0, period as int);
        assert(0 <= phase * UNIT < period * UNIT) by (nonlinear_arith)
            requires
                0 <= phase < period,
                UNIT == 1_000_000_000,
        ;
        assert(period * UNIT <= 0x8000_0000_0000_0000 * UNIT) by (nonlinear_arith)
            requires
                period <= 0x8000_0000_0000_0000,
                UNIT == 1_000_000_000,
        ;
    }
    (crate::fixed::wide_product(phase, UNIT) / (period as i128)) as i64
}

} // verus!
