//! Properties of the engine that hold for every input, proved from the
//! definitions the operations are specified by.

use vstd::prelude::*;
use crate::envelope::{is_fading, Envelope, EnvelopeSettings, Stage, LEVEL_ONE};
use crate::harmonics::{
    spec_partial, spec_partial_count, spec_width_divisor, AmpWidth, Waveform, HARMONICS_COUNT,
};
use crate::voices::{
    advancer, live, spec_advance, spec_advance_voices, spec_frames, spec_note_off, spec_note_on,
    table_wf, Voice, NOTE_COUNT,
};

verus! {

/// A voice that does not fade out in this sample stays in front of its note.
proof fn lemma_front_survives(voices: Seq<Voice>, phase_step: u32, s: EnvelopeSettings)
    requires
        voices.len() > 0,
        !voices[0].spec_advance(phase_step, s).is_exhausted(),
    ensures
        spec_advance_voices(voices, phase_step, s).len() > 0,
        spec_advance_voices(voices, phase_step, s)[0] == voices[0].spec_advance(phase_step, s),
{
    let m = voices.map_values(advancer(phase_step, s));
    let head = seq![m[0]];
    assert(m =~= head + m.drop_first());
    Seq::filter_distributes_over_add(head, m.drop_first(), live());
    reveal(Seq::filter);
    assert(head.drop_last() =~= Seq::<Voice>::empty());
    assert(head.filter(live()) =~= head);
}

/// With an instantaneous attack, a note that has just been struck is at full
/// level in the very first sample after the note-on, and stays in front.
pub proof fn instant_attack_reaches_full_level(
    t: Seq<Seq<Voice>>,
    note: u8,
    velocity: u32,
    phase_steps: Seq<u32>,
    s: EnvelopeSettings,
)
    requires
        table_wf(t),
        s.wf(),
        note < NOTE_COUNT,
        phase_steps.len() == NOTE_COUNT,
        s.attack_step == 0,
    ensures
        spec_frames(spec_note_on(t, note, velocity)[note as int], s)[0].level == LEVEL_ONE,
        spec_advance(spec_note_on(t, note, velocity), phase_steps, s)[note as int][0].envelope
            == (Envelope { stage: Stage::Hold, level: LEVEL_ONE, hold_elapsed: 0 }),
{
    let t1 = spec_note_on(t, note, velocity);
    let voices = t1[note as int];
    assert(voices[0] == Voice::spec_new(velocity));
    lemma_front_survives(voices, phase_steps[note as int], s);
}

/// With an instantaneous decay, the level goes from where the hold stage
/// left it straight to the sustain level: no sample in between takes any
/// other value.
pub proof fn instant_decay_skips_to_sustain(e: Envelope, s: EnvelopeSettings)
    requires
        s.decay_step == 0,
        e.stage == Stage::Hold || e.stage == Stage::Decay,
    ensures
        e.stage == Stage::Hold ==> e.spec_step(s).level == e.level,
        e.stage == Stage::Decay ==> e.spec_step(s) == (Envelope {
            stage: Stage::Sustain,
            level: s.sustain_level,
            ..e
        }),
{
}

/// Striking a note that has one voice leaves it exactly two: the new voice,
/// starting its attack, in front of the old one, cut off at the level it had.
pub proof fn retrigger_keeps_two_voices(t: Seq<Seq<Voice>>, note: u8, velocity: u32)
    requires
        table_wf(t),
        note < NOTE_COUNT,
        t[note as int].len() == 1,
    ensures
        spec_note_on(t, note, velocity)[note as int].len() == 2,
        spec_note_on(t, note, velocity)[note as int][0] == Voice::spec_new(velocity),
        spec_note_on(t, note, velocity)[note as int][0].envelope.stage == Stage::Attack,
        spec_note_on(t, note, velocity)[note as int][1].envelope.stage == Stage::Dead,
        spec_note_on(t, note, velocity)[note as int][1].envelope.level == t[note as int][0].envelope.level,
        forall|n: int| 0 <= n < NOTE_COUNT && n != note ==> spec_note_on(t, note, velocity)[n] == t[n],
{
}

/// A voice that was cut off keeps fading, strictly, in every sample until
/// its level is zero.
pub proof fn cut_off_voice_fades(e: Envelope, s: EnvelopeSettings)
    requires
        e.stage == Stage::Dead,
        e.level > 0,
    ensures
        e.spec_step(s).stage == Stage::Dead,
        e.spec_step(s).level < e.level,
{
}

/// A note-off during the attack moves the voice straight to the release
/// stage at the level it had reached.
pub proof fn release_during_attack(t: Seq<Seq<Voice>>, note: u8)
    requires
        table_wf(t),
        note < NOTE_COUNT,
        t[note as int].len() > 0,
        t[note as int][0].envelope.stage == Stage::Attack,
    ensures
        spec_note_off(t, note)[note as int][0].envelope.stage == Stage::Release,
        spec_note_off(t, note)[note as int][0].envelope.level == t[note as int][0].envelope.level,
{
}

/// In the release stage, and in the cut-off stage, the level never rises and
/// the stage never changes.
pub proof fn fading_never_rises(e: Envelope, s: EnvelopeSettings)
    requires
        is_fading(e.stage),
    ensures
        e.spec_step(s).stage == e.stage,
        e.spec_step(s).level <= e.level,
{
}

/// The weight of harmonic `i` relative to the fundamental is one over the
/// width divisor: `1`, `1/(i+1)` or `1/(i+1)²`, times its coefficient.
pub proof fn amp_width_scaling(width: AmpWidth, waveform: Waveform, i: int)
    requires
        0 <= i < HARMONICS_COUNT,
    ensures
        spec_partial(width, waveform, 0).divisor == 1,
        spec_partial(width, waveform, 0).multiple == 1,
        spec_partial(width, waveform, i).multiple == i + 1,
        spec_partial(width, waveform, i).coefficient == Some(i as usize),
        !spec_partial(width, waveform, i).negative,
        !spec_partial(width, waveform, i).squared,
        width == AmpWidth::Flat ==> spec_partial(width, waveform, i).divisor == 1,
        width == AmpWidth::InverseLinear ==> spec_partial(width, waveform, i).divisor == i + 1,
        width == AmpWidth::InverseSquare ==> spec_partial(width, waveform, i).divisor == (i + 1) * (i + 1),
{
    assert(spec_width_divisor(width, i) <= 1024) by (nonlinear_arith)
        requires
            0 <= i < 31,
            spec_width_divisor(width, i) == 1 || spec_width_divisor(width, i) == i + 1
                || spec_width_divisor(width, i) == (i + 1) * (i + 1);
}

/// The series that continues the spectrum starts right after the explicit
/// harmonics and stops below the harmonic limit: partial `j` past the table
/// stands at harmonic `j + 1`, every such harmonic lies between
/// `HARMONICS_COUNT + 1` and `limit - 1`, and without a waveform there is none.
pub proof fn extra_series_lies_past_the_table(width: AmpWidth, waveform: Waveform, limit: u64, j: int)
    requires
        HARMONICS_COUNT <= j < spec_partial_count(waveform, limit),
    ensures
        waveform != Waveform::Plain,
        spec_partial(width, waveform, j).multiple == j + 1,
        HARMONICS_COUNT < spec_partial(width, waveform, j).multiple < limit,
        spec_partial(width, waveform, j).coefficient is None,
{
}

/// After a sample, no voice that has faded out is left: a voice whose level
/// reaches zero while fading takes part in that sample, and in no later one.
pub proof fn faded_voices_are_dropped(t: Seq<Seq<Voice>>, phase_steps: Seq<u32>, s: EnvelopeSettings)
    requires
        table_wf(t),
        phase_steps.len() == NOTE_COUNT,
    ensures
        forall|n: int, i: int|
            0 <= n < NOTE_COUNT && 0 <= i < spec_advance(t, phase_steps, s)[n].len()
                ==> !(#[trigger] spec_advance(t, phase_steps, s)[n][i]).is_exhausted(),
        forall|n: int| 0 <= n < NOTE_COUNT ==> (#[trigger] spec_frames(t[n], s)).len() == t[n].len(),
{
    assert forall|n: int, i: int|
        0 <= n < NOTE_COUNT && 0 <= i < spec_advance(t, phase_steps, s)[n].len()
            implies !(#[trigger] spec_advance(t, phase_steps, s)[n][i]).is_exhausted() by {
        let m = t[n].map_values(advancer(phase_steps[n], s));
        m.lemma_filter_pred(live(), i);
    }
}

} // verus!
