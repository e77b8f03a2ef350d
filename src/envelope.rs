//! The per-voice attack, hold, decay, sustain, release state machine.

use vstd::prelude::*;

verus! {

/// The envelope level that stands for full amplitude.
pub const LEVEL_ONE: u32 = 0x4000_0000;

/// The stage a voice's envelope is in.
///
/// `Dead` behaves like `Release` but marks a voice that was cut off
/// because its note was struck again, rather than released.
#[derive(Clone, Copy, Debug, PartialEq, Eq, Structural)]
pub enum Stage {
    Attack,
    Hold,
    Decay,
    Sustain,
    Release,
    Dead,
}

/// Envelope timings resolved for one sample rate.
///
/// A step is the level gained or lost per sample. A step of zero marks a
/// stage whose duration is below the smallest measurable time: such a stage
/// is passed through at once instead of stalling.
#[derive(Clone, Copy, Debug, PartialEq, Eq, Structural)]
pub struct EnvelopeSettings {
    pub attack_step: u32,
    /// Length of the hold stage in samples.
    pub hold_samples: u64,
    pub decay_step: u32,
    pub sustain_level: u32,
    pub release_step: u32,
}

impl EnvelopeSettings {
    pub open spec fn wf(self) -> bool {
        self.sustain_level <= LEVEL_ONE
    }
}

/// The envelope state of one voice.
#[derive(Clone, Copy, Debug, PartialEq, Eq, Structural)]
pub struct Envelope {
    pub stage: Stage,
    pub level: u32,
    /// Samples spent in the hold stage so far.
    pub hold_elapsed: u64,
}

/// The stage is one of the two fading stages.
pub open spec fn is_fading(stage: Stage) -> bool {
    stage == Stage::Release || stage == Stage::Dead
}

/// `a` lowered by `step`, stopping at zero.
pub open spec fn lowered(a: u32, step: u32) -> u32 {
    if a > step {
        (a - step) as u32
    } else {
        0
    }
}

impl Envelope {
    pub open spec fn wf(self) -> bool {
        self.level <= LEVEL_ONE
    }

    /// The voice has faded out completely and may be removed.
    pub open spec fn is_exhausted(self) -> bool {
        is_fading(self.stage) && self.level == 0
    }

    /// The envelope of a voice that has just started.
    pub open spec fn spec_start() -> Envelope {
        Envelope { stage: Stage::Attack, level: 0, hold_elapsed: 0 }
    }

    /// The envelope after one sample.
    pub open spec fn spec_step(self, s: EnvelopeSettings) -> Envelope {
        match self.stage {
            Stage::Attack => {
                if s.attack_step == 0 || self.level + s.attack_step >= LEVEL_ONE {
                    Envelope { stage: Stage::Hold, level: LEVEL_ONE, ..self }
                } else {
                    Envelope { level: (self.level + s.attack_step) as u32, ..self }
                }
            },
            Stage::Hold => {
                let held = if self.hold_elapsed < u64::MAX {
                    (self.hold_elapsed + 1) as u64
                } else {
                    self.hold_elapsed
                };
                if held + 1 >= s.hold_samples {
                    Envelope { stage: Stage::Decay, hold_elapsed: held, ..self }
                } else {
                    Envelope { hold_elapsed: held, ..self }
                }
            },
            Stage::Decay => {
                if s.decay_step == 0 {
                    Envelope { stage: Stage::Sustain, level: s.sustain_level, ..self }
                } else {
                    let level = lowered(self.level, s.decay_step);
                    if level <= s.sustain_level {
                        Envelope { stage: Stage::Sustain, level, ..self }
                    } else {
                        Envelope { level, ..self }
                    }
                }
            },
            Stage::Sustain => self,
            Stage::Release | Stage::Dead => {
                if s.release_step == 0 {
                    Envelope { level: 0, ..self }
                } else {
                    Envelope { level: lowered(self.level, s.release_step), ..self }
                }
            },
        }
    }

    pub fn start() -> (r: Envelope)
        ensures
            r == Envelope::spec_start(),
    {
        Envelope { stage: Stage::Attack, level: 0, hold_elapsed: 0 }
    }

    /// Advances the envelope by one sample.
    pub fn step(&self, s: &EnvelopeSettings) -> (r: Envelope)
        requires
            self.wf(),
            s.wf(),
        ensures
            r == self.spec_step(*s),
            r.wf(),
    {
        match self.stage {
            Stage::Attack => {
                if s.attack_step == 0 || self.level as u64 + s.attack_step as u64 >= LEVEL_ONE as u64 {
                    Envelope { stage: Stage::Hold, level: LEVEL_ONE, ..*self }
                } else {
                    Envelope { level: self.level + s.attack_step, ..*self }
                }
            },
            Stage::Hold => {
                let held = self.hold_elapsed.saturating_add(1);
                if held as u128 + 1 >= s.hold_samples as u128 {
                    Envelope { stage: Stage::Decay, hold_elapsed: held, ..*self }
                } else {
                    Envelope { hold_elapsed: held, ..*self }
                }
            },
            Stage::Decay => {
                if s.decay_step == 0 {
                    Envelope { stage: Stage::Sustain, level: s.sustain_level, ..*self }
                } else {
                    let level = lower(self.level, s.decay_step);
                    if level <= s.sustain_level {
                        Envelope { stage: Stage::Sustain, level, ..*self }
                    } else {
                        Envelope { level, ..*self }
                    }
                }
            },
            Stage::Sustain => *self,
            Stage::Release | Stage::Dead => {
                if s.release_step == 0 {
                    Envelope { level: 0, ..*self }
                } else {
                    Envelope { level: lower(self.level, s.release_step), ..*self }
                }
            },
        }
    }
}

fn lower(a: u32, step: u32) -> (r: u32)
    ensures
        r == lowered(a, step),
{
    if a > step {
        a - step
    } else {
        0
    }
}

} // verus!
