//! The voices that are sounding, kept per note, most recent first.

use vstd::prelude::*;
use crate::envelope::{Envelope, EnvelopeSettings, Stage};

verus! {

/// Number of note numbers a voice can be started on.
pub const NOTE_COUNT: usize = 128;

/// One sounding instance of a note.
#[derive(Clone, Copy, Debug, PartialEq, Eq, Structural)]
pub struct Voice {
    /// Oscillator phase: the full range of `u32` is one cycle.
    pub phase: u32,
    /// The amplitude the voice's gain follower is heading for, taken from the
    /// velocity and later from the pressure.
    pub gain_target: u32,
    pub envelope: Envelope,
}

/// What the mix needs of one voice for one sample: the phase the sample is
/// taken at and the envelope level it is scaled by.
#[derive(Clone, Copy, Debug, PartialEq, Eq, Structural)]
pub struct VoiceFrame {
    pub phase: u32,
    pub level: u32,
}

impl Voice {
    pub open spec fn wf(self) -> bool {
        self.envelope.wf()
    }

    pub open spec fn spec_new(velocity: u32) -> Voice {
        Voice { phase: 0, gain_target: velocity, envelope: Envelope::spec_start() }
    }

    pub open spec fn with_stage(self, stage: Stage) -> Voice {
        Voice { envelope: Envelope { stage, ..self.envelope }, ..self }
    }

    pub open spec fn is_exhausted(self) -> bool {
        self.envelope.is_exhausted()
    }

    /// The voice after one sample whose phase advances by `phase_step`.
    pub open spec fn spec_advance(self, phase_step: u32, s: EnvelopeSettings) -> Voice {
        Voice {
            phase: spec_wrap_phase(self.phase, phase_step),
            envelope: self.envelope.spec_step(s),
            ..self
        }
    }

    /// The voice's part in one sample: the phase before it advances and the
    /// envelope level after it.
    pub open spec fn spec_frame(self, s: EnvelopeSettings) -> VoiceFrame {
        VoiceFrame { phase: self.phase, level: self.envelope.spec_step(s).level }
    }

    pub fn new(velocity: u32) -> (r: Voice)
        ensures
            r == Voice::spec_new(velocity),
            r.wf(),
    {
        Voice { phase: 0, gain_target: velocity, envelope: Envelope::start() }
    }
}

/// Every note has its sequence and every voice is well formed.
pub open spec fn table_wf(t: Seq<Seq<Voice>>) -> bool {
    &&& t.len() == NOTE_COUNT
    &&& forall|n: int, i: int| 0 <= n < t.len() && 0 <= i < t[n].len() ==> (#[trigger] t[n][i]).wf()
}

/// A table without any voice.
pub open spec fn empty_table() -> Seq<Seq<Voice>> {
    Seq::new(NOTE_COUNT as nat, |n: int| Seq::<Voice>::empty())
}

/// A note-on: the note's current voice, if any, is cut off, and a new voice
/// goes in front of it.
pub open spec fn spec_note_on(t: Seq<Seq<Voice>>, note: u8, velocity: u32) -> Seq<Seq<Voice>> {
    if note >= NOTE_COUNT {
        t
    } else {
        let older = t[note as int];
        let kept = if older.len() > 0 {
            older.update(0, older[0].with_stage(Stage::Dead))
        } else {
            older
        };
        t.update(note as int, seq![Voice::spec_new(velocity)] + kept)
    }
}

/// A note-off: the note's most recent voice, if any, is released.
pub open spec fn spec_note_off(t: Seq<Seq<Voice>>, note: u8) -> Seq<Seq<Voice>> {
    if note < NOTE_COUNT && t[note as int].len() > 0 {
        let voices = t[note as int];
        t.update(note as int, voices.update(0, voices[0].with_stage(Stage::Release)))
    } else {
        t
    }
}

/// A pressure change: the note's most recent voice, if any, heads for the
/// new amplitude.
pub open spec fn spec_pressure(t: Seq<Seq<Voice>>, note: u8, pressure: u32) -> Seq<Seq<Voice>> {
    if note < NOTE_COUNT && t[note as int].len() > 0 {
        let voices = t[note as int];
        t.update(note as int, voices.update(0, Voice { gain_target: pressure, ..voices[0] }))
    } else {
        t
    }
}

/// The voices that remain after one sample: each advanced, without those
/// that have faded out.
pub open spec fn spec_advance_voices(voices: Seq<Voice>, phase_step: u32, s: EnvelopeSettings) -> Seq<Voice> {
    voices.map_values(advancer(phase_step, s)).filter(live())
}

/// Advancing a voice by one sample, as a function.
pub open spec fn advancer(phase_step: u32, s: EnvelopeSettings) -> spec_fn(Voice) -> Voice {
    |v: Voice| v.spec_advance(phase_step, s)
}

/// The test a voice must pass to stay.
pub open spec fn live() -> spec_fn(Voice) -> bool {
    |v: Voice| !v.is_exhausted()
}

/// The table after one sample.
pub open spec fn spec_advance(t: Seq<Seq<Voice>>, phase_steps: Seq<u32>, s: EnvelopeSettings) -> Seq<Seq<Voice>> {
    Seq::new(t.len(), |n: int| spec_advance_voices(t[n], phase_steps[n], s))
}

/// The parts of the voices of one note in one sample.
pub open spec fn spec_frames(voices: Seq<Voice>, s: EnvelopeSettings) -> Seq<VoiceFrame> {
    voices.map_values(|v: Voice| v.spec_frame(s))
}

/// Number of voices in a table.
pub open spec fn total(t: Seq<Seq<Voice>>) -> int
    decreases t.len(),
{
    if t.len() == 0 {
        0
    } else {
        total(t.drop_last()) + t.last().len()
    }
}

/// A phase advanced by `step`, wrapping at one cycle.
pub open spec fn spec_wrap_phase(phase: u32, step: u32) -> u32 {
    ((phase + step) % 0x1_0000_0000) as u32
}

/// A phase advanced by `step`, wrapping at one cycle.
pub fn wrap_phase(phase: u32, step: u32) -> (r: u32)
    ensures
        r == spec_wrap_phase(phase, step),
{
    let sum: u64 = phase as u64 + step as u64;
    if sum >= 0x1_0000_0000u64 {
        (sum - 0x1_0000_0000u64) as u32
    } else {
        sum as u32
    }
}

/// Advances the voices of one note by one sample. Returns the voices that
/// have not faded out, and every voice's part in the sample.
fn advance_voices(voices: &Vec<Voice>, phase_step: u32, s: &EnvelopeSettings) -> (r: (
    Vec<Voice>,
    Vec<VoiceFrame>,
))
    requires
        s.wf(),
        forall|i: int| 0 <= i < voices@.len() ==> (#[trigger] voices@[i]).wf(),
    ensures
        r.0@ == spec_advance_voices(voices@, phase_step, *s),
        r.1@ == spec_frames(voices@, *s),
        forall|i: int| 0 <= i < r.0@.len() ==> (#[trigger] r.0@[i]).wf() && !r.0@[i].is_exhausted(),
{
    let mut kept: Vec<Voice> = Vec::new();
    let mut frames: Vec<VoiceFrame> = Vec::new();
    let mut i: usize = 0;
    while i < voices.len()
        invariant
            s.wf(),
            i <= voices@.len(),
            forall|j: int| 0 <= j < voices@.len() ==> (#[trigger] voices@[j]).wf(),
            kept@ == voices@.subrange(0, i as int).map_values(advancer(phase_step, *s)).filter(live()),
            frames@ == spec_frames(voices@.subrange(0, i as int), *s),
            forall|j: int| 0 <= j < kept@.len() ==> (#[trigger] kept@[j]).wf() && !kept@[j].is_exhausted(),
        decreases voices@.len() - i,
    {
        let v = voices[i];
        let envelope = v.envelope.step(s);
        let next = Voice { phase: wrap_phase(v.phase, phase_step), envelope, ..v };
        frames.push(VoiceFrame { phase: v.phase, level: envelope.level });
        proof {
            let before = voices@.subrange(0, i as int);
            let after = voices@.subrange(0, i as int + 1);
            assert(after.map_values(advancer(phase_step, *s)).drop_last() =~= before.map_values(advancer(phase_step, *s)));
            assert(after[i as int] == v);
            assert(after.map_values(advancer(phase_step, *s))[i as int] == v.spec_advance(phase_step, *s));
            assert(after.map_values(advancer(phase_step, *s)).last() == next);
            reveal(Seq::filter);
            assert(spec_frames(after, *s) =~= spec_frames(before, *s).push(
                VoiceFrame { phase: v.phase, level: envelope.level },
            ));
        }
        if !(envelope.level == 0 && (envelope.stage == Stage::Release || envelope.stage == Stage::Dead)) {
            kept.push(next);
        }
        i += 1;
    }
    assert(voices@.subrange(0, voices@.len() as int) =~= voices@);
    (kept, frames)
}

/// The voices of every note.
pub struct VoiceManager {
    notes: Vec<Vec<Voice>>,
}

impl View for VoiceManager {
    type V = Seq<Seq<Voice>>;

    closed spec fn view(&self) -> Seq<Seq<Voice>> {
        self.notes@.map_values(|v: Vec<Voice>| v@)
    }
}

impl VoiceManager {
    pub open spec fn wf(&self) -> bool {
        table_wf(self@)
    }

    pub fn new() -> (r: VoiceManager)
        ensures
            r.wf(),
            r@ == empty_table(),
    {
        let mut notes: Vec<Vec<Voice>> = Vec::new();
        let mut n: usize = 0;
        while n < NOTE_COUNT
            invariant
                n <= NOTE_COUNT,
                notes@.len() == n,
                forall|m: int| 0 <= m < n ==> (#[trigger] notes@[m])@.len() == 0,
            decreases NOTE_COUNT - n,
        {
            notes.push(Vec::new());
            n += 1;
        }
        let r = VoiceManager { notes };
        assert forall|m: int| 0 <= m < NOTE_COUNT implies r@[m] =~= empty_table()[m] by {
            assert(notes@[m]@.len() == 0);
        }
        assert(r@ =~= empty_table());
        r
    }

    /// Drops every voice.
    pub fn clear(&mut self)
        ensures
            final(self).wf(),
            final(self)@ == empty_table(),
    {
        *self = VoiceManager::new();
    }

    pub fn note_on(&mut self, note: u8, velocity: u32)
        requires
            old(self).wf(),
        ensures
            final(self).wf(),
            final(self)@ == spec_note_on(old(self)@, note, velocity),
    {
        if (note as usize) < NOTE_COUNT {
            let n = note as usize;
            let ghost t = self@;
            assert(self.notes@[n as int]@ == t[n as int]);
            let mut voices: Vec<Voice> = Vec::new();
            std::mem::swap(&mut voices, &mut self.notes[n]);
            if voices.len() > 0 {
                let front = voices[0];
                voices.set(0, Voice { envelope: Envelope { stage: Stage::Dead, ..front.envelope }, ..front });
            }
            voices.insert(0, Voice::new(velocity));
            self.notes.set(n, voices);
            proof {
                let want = spec_note_on(t, note, velocity);
                assert(voices@ =~= want[n as int]);
                assert(self@ =~= want);
            }
        }
    }

    pub fn note_off(&mut self, note: u8)
        requires
            old(self).wf(),
        ensures
            final(self).wf(),
            final(self)@ == spec_note_off(old(self)@, note),
    {
        if (note as usize) < NOTE_COUNT && self.notes[note as usize].len() > 0 {
            let n = note as usize;
            let ghost t = self@;
            assert(self.notes@[n as int]@ == t[n as int]);
            let mut voices: Vec<Voice> = Vec::new();
            std::mem::swap(&mut voices, &mut self.notes[n]);
            let front = voices[0];
            voices.set(0, Voice { envelope: Envelope { stage: Stage::Release, ..front.envelope }, ..front });
            self.notes.set(n, voices);
            proof {
                let want = spec_note_off(t, note);
                assert(voices@ =~= want[n as int]);
                assert(self@ =~= want);
            }
        }
    }

    pub fn set_pressure(&mut self, note: u8, pressure: u32)
        requires
            old(self).wf(),
        ensures
            final(self).wf(),
            final(self)@ == spec_pressure(old(self)@, note, pressure),
    {
        if (note as usize) < NOTE_COUNT && self.notes[note as usize].len() > 0 {
            let n = note as usize;
            let ghost t = self@;
            assert(self.notes@[n as int]@ == t[n as int]);
            let mut voices: Vec<Voice> = Vec::new();
            std::mem::swap(&mut voices, &mut self.notes[n]);
            let front = voices[0];
            voices.set(0, Voice { gain_target: pressure, ..front });
            self.notes.set(n, voices);
            proof {
                let want = spec_pressure(t, note, pressure);
                assert(voices@ =~= want[n as int]);
                assert(self@ =~= want);
            }
        }
    }
    /// Advances every voice by one sample, the voices of note `n` by
    /// `phase_steps[n]`, and drops the voices that have faded out. Returns,
    /// per note, each voice's part in the sample, dropped voices included.
    pub fn advance(&mut self, phase_steps: &Vec<u32>, s: &EnvelopeSettings) -> (frames: Vec<Vec<VoiceFrame>>)
        requires
            old(self).wf(),
            s.wf(),
            phase_steps@.len() == NOTE_COUNT,
        ensures
            final(self).wf(),
            final(self)@ == spec_advance(old(self)@, phase_steps@, *s),
            frames@.len() == NOTE_COUNT,
            forall|n: int| 0 <= n < NOTE_COUNT ==> (#[trigger] frames@[n])@ == spec_frames(old(self)@[n], *s),
    {
        let ghost t = self@;
        let mut frames: Vec<Vec<VoiceFrame>> = Vec::new();
        let mut n: usize = 0;
        while n < NOTE_COUNT
            invariant
                s.wf(),
                n <= NOTE_COUNT,
                phase_steps@.len() == NOTE_COUNT,
                table_wf(t),
                self.notes@.len() == NOTE_COUNT,
                forall|m: int| 0 <= m < n ==> (#[trigger] self@[m]) == spec_advance_voices(t[m], phase_steps@[m], *s),
                forall|m: int, i: int| 0 <= m < n && 0 <= i < self@[m].len() ==> (#[trigger] self@[m][i]).wf(),
                forall|m: int| n <= m < NOTE_COUNT ==> (#[trigger] self@[m]) == t[m],
                frames@.len() == n,
                forall|m: int| 0 <= m < n ==> (#[trigger] frames@[m])@ == spec_frames(t[m], *s),
            decreases NOTE_COUNT - n,
        {
            assert(self@[n as int] == t[n as int]);
            let (kept, fr) = advance_voices(&self.notes[n], phase_steps[n], s);
            let ghost before = self@;
            self.notes.set(n, kept);
            assert(self@ =~= before.update(n as int, kept@));
            frames.push(fr);
            n += 1;
        }
        assert(self@ =~= spec_advance(t, phase_steps@, *s));
        frames
    }

    /// Number of voices of all notes.
    pub fn voice_count(&self) -> (r: u128)
        requires
            self.wf(),
        ensures
            r == total(self@),
    {
        let mut sum: u128 = 0;
        let mut n: usize = 0;
        while n < self.notes.len()
            invariant
                n <= self.notes@.len(),
                self.notes@.len() == NOTE_COUNT,
                sum == total(self@.subrange(0, n as int)),
                sum <= n * (usize::MAX as int),
            decreases self.notes@.len() - n,
        {
            assert(self@.subrange(0, n as int + 1).drop_last() =~= self@.subrange(0, n as int));
            let len = self.notes[n].len();
            assert(sum + len <= (n + 1) * (usize::MAX as int)) by (nonlinear_arith)
                requires
                    sum <= n * (usize::MAX as int),
                    len <= usize::MAX;
            assert((n + 1) * (usize::MAX as int) <= 128 * 0x1_0000_0000_0000_0000) by (nonlinear_arith)
                requires
                    n < 128,
                    usize::MAX < 0x1_0000_0000_0000_0000;
            sum = sum + len as u128;
            n += 1;
        }
        assert(self@.subrange(0, n as int) =~= self@);
        sum
    }

    /// The voices of `note`, most recent first; none for a note out of range.
    pub fn voices_of(&self, note: u8) -> (r: Vec<Voice>)
        requires
            self.wf(),
        ensures
            note < NOTE_COUNT ==> r@ == self@[note as int],
            note >= NOTE_COUNT ==> r@.len() == 0,
    {
        if (note as usize) < NOTE_COUNT {
            let r = self.notes[note as usize].clone();
            assert(r@ =~= self@[note as int]);
            r
        } else {
            Vec::new()
        }
    }
}

} // verus!
