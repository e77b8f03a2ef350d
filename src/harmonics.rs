//! Which partials make up a voice's waveform, and how each is weighted.

use vstd::prelude::*;

verus! {

/// Number of harmonics with an explicit coefficient.
pub const HARMONICS_COUNT: usize = 31;

/// How a harmonic's weight falls with its index.
#[derive(Clone, Copy, Debug, PartialEq, Eq, Structural)]
pub enum AmpWidth {
    /// Every harmonic keeps its coefficient.
    Flat,
    /// Harmonic `i` (counted from zero) is divided by `i + 1`.
    InverseLinear,
    /// Harmonic `i` (counted from zero) is divided by `(i + 1)²`.
    InverseSquare,
}

/// The waveform whose series continues the spectrum past the explicit
/// harmonics, up to the sample rate's limit.
#[derive(Clone, Copy, Debug, PartialEq, Eq, Structural)]
pub enum Waveform {
    Plain,
    Triangle,
    Sawtooth,
    Square,
}

/// One sinusoid of a voice's waveform: `±coef / d · sin(multiple · 2π · phase)`,
/// where `coef` is the harmonic coefficient `coefficient` names, or one, and
/// `d` is `divisor`, or `divisor²` where `squared`.
#[derive(Clone, Copy, Debug, PartialEq, Eq, Structural)]
pub struct Partial {
    pub multiple: u64,
    pub divisor: u128,
    pub squared: bool,
    pub negative: bool,
    pub coefficient: Option<usize>,
}

impl AmpWidth {
    pub open spec fn spec_index(self) -> usize {
        match self {
            AmpWidth::Flat => 0,
            AmpWidth::InverseLinear => 1,
            AmpWidth::InverseSquare => 2,
        }
    }

    /// The position of the mode in its selector.
    pub fn to_index(self) -> (r: usize)
        ensures
            r == self.spec_index(),
    {
        match self {
            AmpWidth::Flat => 0,
            AmpWidth::InverseLinear => 1,
            AmpWidth::InverseSquare => 2,
        }
    }

    /// The mode at a position of its selector.
    pub fn from_index(index: usize) -> (r: AmpWidth)
        requires
            index < 3,
        ensures
            r.spec_index() == index,
    {
        match index {
            0 => AmpWidth::Flat,
            1 => AmpWidth::InverseLinear,
            _ => AmpWidth::InverseSquare,
        }
    }
}

/// What harmonic `i` (counted from zero) is divided by under `width`.
pub open spec fn spec_width_divisor(width: AmpWidth, i: int) -> int {
    match width {
        AmpWidth::Flat => 1,
        AmpWidth::InverseLinear => i + 1,
        AmpWidth::InverseSquare => (i + 1) * (i + 1),
    }
}

/// What harmonic `i` (counted from zero) is divided by under `width`.
pub fn width_divisor(width: AmpWidth, i: usize) -> (r: u128)
    requires
        i < HARMONICS_COUNT,
    ensures
        r == spec_width_divisor(width, i as int),
{
    let n = i as u128 + 1;
    assert(n * n <= 1024) by (nonlinear_arith)
        requires n <= 32;
    match width {
        AmpWidth::Flat => 1,
        AmpWidth::InverseLinear => n,
        AmpWidth::InverseSquare => n * n,
    }
}

/// The number of harmonics that fit below the sample rate for a voice whose
/// fundamental advances its phase by `phase_step` per sample (a phase step
/// of 2³² being one cycle per sample). A voice that does not move has none.
pub open spec fn spec_nyquist_limit(phase_step: u32) -> u64 {
    if phase_step == 0 {
        0
    } else {
        (0x1_0000_0000u64 / phase_step as u64) as u64
    }
}

pub fn nyquist_limit(phase_step: u32) -> (r: u64)
    ensures
        r == spec_nyquist_limit(phase_step),
{
    if phase_step == 0 {
        0
    } else {
        0x1_0000_0000u64 / phase_step as u64
    }
}

/// First harmonic of the extra series: the one after the explicit table.
pub open spec fn extra_start() -> int {
    HARMONICS_COUNT + 1
}

/// Number of partials past the explicit harmonics: the harmonics from
/// `extra_start()` up to, not including, `limit`; none without a waveform.
pub open spec fn spec_extra_count(waveform: Waveform, limit: u64) -> int {
    if waveform != Waveform::Plain && limit > extra_start() {
        limit - extra_start()
    } else {
        0
    }
}

/// Number of partials of a voice.
pub open spec fn spec_partial_count(waveform: Waveform, limit: u64) -> int {
    HARMONICS_COUNT + spec_extra_count(waveform, limit)
}

/// Partial `j` of a voice: first the explicit harmonics, weighted by
/// `width`; then the series of `waveform`, whose term `k` stands at
/// harmonic `k`, past the table, and weighs `1/(2k)` for a square,
/// `±1/(2k)²` for a triangle (negative for even `k`) and `1/k` for a
/// sawtooth.
pub open spec fn spec_partial(width: AmpWidth, waveform: Waveform, j: int) -> Partial {
    if j < HARMONICS_COUNT {
        Partial {
            multiple: (j + 1) as u64,
            divisor: spec_width_divisor(width, j) as u128,
            squared: false,
            negative: false,
            coefficient: Some(j as usize),
        }
    } else {
        let k = extra_start() + (j - HARMONICS_COUNT);
        match waveform {
            Waveform::Square => Partial {
                multiple: k as u64,
                divisor: (2 * k) as u128,
                squared: false,
                negative: false,
                coefficient: None,
            },
            Waveform::Triangle => Partial {
                multiple: k as u64,
                divisor: (2 * k) as u128,
                squared: true,
                negative: k % 2 == 0,
                coefficient: None,
            },
            _ => Partial {
                multiple: k as u64,
                divisor: k as u128,
                squared: false,
                negative: false,
                coefficient: None,
            },
        }
    }
}

/// Number of partials of a voice whose harmonic limit is `limit`.
pub fn partial_count(waveform: Waveform, limit: u64) -> (r: u64)
    ensures
        r == spec_partial_count(waveform, limit),
{
    let start: u64 = HARMONICS_COUNT as u64 + 1;
    let extra: u64 = match waveform {
        Waveform::Plain => 0,
        _ => if limit > start {
            limit - start
        } else {
            0
        },
    };
    HARMONICS_COUNT as u64 + extra
}

/// Partial `j` of a voice whose harmonic limit is `limit`.
pub fn partial_at(width: AmpWidth, waveform: Waveform, limit: u64, j: u64) -> (r: Partial)
    requires
        j < spec_partial_count(waveform, limit),
    ensures
        r == spec_partial(width, waveform, j as int),
{
    if j < HARMONICS_COUNT as u64 {
        Partial {
            multiple: j + 1,
            divisor: width_divisor(width, j as usize),
            squared: false,
            negative: false,
            coefficient: Some(j as usize),
        }
    } else {
        let k: u64 = HARMONICS_COUNT as u64 + 1 + (j - HARMONICS_COUNT as u64);
        assert(k < limit);
        match waveform {
            Waveform::Square => Partial {
                multiple: k,
                divisor: 2 * k as u128,
                squared: false,
                negative: false,
                coefficient: None,
            },
            Waveform::Triangle => Partial {
                multiple: k,
                divisor: 2 * k as u128,
                squared: true,
                negative: k % 2 == 0,
                coefficient: None,
            },
            _ => Partial {
                multiple: k,
                divisor: k as u128,
                squared: false,
                negative: false,
                coefficient: None,
            },
        }
    }
}

} // verus!
