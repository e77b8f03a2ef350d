//! The synthesizer's state between samples, and what happens to it in one
//! sample: due note events are applied, the LFO and every voice advance.

use vstd::prelude::*;
use crate::envelope::EnvelopeSettings;
use crate::voices::{
    empty_table, spec_advance, spec_frames, spec_note_off, spec_note_on, spec_pressure,
    spec_wrap_phase, table_wf, total, wrap_phase, Voice, VoiceFrame, VoiceManager, NOTE_COUNT,
};

verus! {

/// What a note event does.
#[derive(Clone, Copy, Debug, PartialEq, Eq, Structural)]
pub enum NoteEventKind {
    NoteOn { note: u8, velocity: u32 },
    NoteOff { note: u8 },
    PolyPressure { note: u8, pressure: u32 },
}

/// A note event, due at sample `timing` of the block it arrives in.
#[derive(Clone, Copy, Debug, PartialEq, Eq, Structural)]
pub struct NoteEvent {
    pub timing: u32,
    pub kind: NoteEventKind,
}

/// The voice table after one event.
pub open spec fn spec_apply(t: Seq<Seq<Voice>>, kind: NoteEventKind) -> Seq<Seq<Voice>> {
    match kind {
        NoteEventKind::NoteOn { note, velocity } => spec_note_on(t, note, velocity),
        NoteEventKind::NoteOff { note } => spec_note_off(t, note),
        NoteEventKind::PolyPressure { note, pressure } => spec_pressure(t, note, pressure),
    }
}

/// The voice table after a run of events, applied in order.
pub open spec fn spec_apply_all(t: Seq<Seq<Voice>>, events: Seq<NoteEvent>) -> Seq<Seq<Voice>>
    decreases events.len(),
{
    if events.len() == 0 {
        t
    } else {
        spec_apply(spec_apply_all(t, events.drop_last()), events.last().kind)
    }
}

/// The synthesizer engine: its voices and its LFO phase.
pub struct Seriessynth {
    voices: VoiceManager,
    lfo_phase: u32,
}

impl Seriessynth {
    /// The voices of every note, most recent first.
    pub closed spec fn table(&self) -> Seq<Seq<Voice>> {
        self.voices@
    }

    /// The LFO phase: the full range of `u32` is one cycle.
    pub closed spec fn spec_lfo_phase(&self) -> u32 {
        self.lfo_phase
    }

    pub open spec fn wf(&self) -> bool {
        table_wf(self.table())
    }

    pub fn new() -> (r: Seriessynth)
        ensures
            r.wf(),
            r.table() == empty_table(),
            r.spec_lfo_phase() == 0,
    {
        Seriessynth { voices: VoiceManager::new(), lfo_phase: 0 }
    }

    /// Drops every voice and restarts the LFO.
    pub fn reset(&mut self)
        ensures
            final(self).wf(),
            final(self).table() == empty_table(),
            final(self).spec_lfo_phase() == 0,
    {
        self.voices.clear();
        self.lfo_phase = 0;
    }

    pub fn lfo_phase(&self) -> (r: u32)
        ensures
            r == self.spec_lfo_phase(),
    {
        self.lfo_phase
    }

    /// Applies one note event. Events for notes out of range, and note-offs
    /// and pressure changes for notes without a voice, change nothing.
    pub fn apply_event(&mut self, event: &NoteEvent)
        requires
            old(self).wf(),
        ensures
            final(self).wf(),
            final(self).table() == spec_apply(old(self).table(), event.kind),
            final(self).spec_lfo_phase() == old(self).spec_lfo_phase(),
    {
        match event.kind {
            NoteEventKind::NoteOn { note, velocity } => self.voices.note_on(note, velocity),
            NoteEventKind::NoteOff { note } => self.voices.note_off(note),
            NoteEventKind::PolyPressure { note, pressure } => self.voices.set_pressure(note, pressure),
        }
    }

    /// Applies, in order, the events from index `next` on that are due at or
    /// before `sample`, and stops at the first that is due later. Returns the
    /// index of that event, or the number of events if none is left.
    pub fn apply_due_events(&mut self, events: &Vec<NoteEvent>, next: usize, sample: u32) -> (r: usize)
        requires
            old(self).wf(),
            next <= events@.len(),
        ensures
            final(self).wf(),
            next <= r <= events@.len(),
            forall|i: int| next <= i < r ==> (#[trigger] events@[i]).timing <= sample,
            r == events@.len() || events@[r as int].timing > sample,
            final(self).table() == spec_apply_all(old(self).table(), events@.subrange(next as int, r as int)),
            final(self).spec_lfo_phase() == old(self).spec_lfo_phase(),
    {
        let ghost t = self.table();
        let mut i: usize = next;
        while i < events.len() && events[i].timing <= sample
            invariant
                self.wf(),
                next <= i <= events@.len(),
                forall|j: int| next <= j < i ==> (#[trigger] events@[j]).timing <= sample,
                self.table() == spec_apply_all(t, events@.subrange(next as int, i as int)),
                self.spec_lfo_phase() == old(self).spec_lfo_phase(),
            decreases events@.len() - i,
        {
            self.apply_event(&events[i]);
            assert(events@.subrange(next as int, i as int + 1).drop_last() =~= events@.subrange(next as int, i as int));
            i += 1;
        }
        i
    }

    /// Advances the LFO by `step`, a full cycle being 2³².
    pub fn advance_lfo(&mut self, step: u32)
        ensures
            final(self).table() == old(self).table(),
            final(self).spec_lfo_phase() == spec_wrap_phase(old(self).spec_lfo_phase(), step),
    {
        self.lfo_phase = wrap_phase(self.lfo_phase, step);
    }

    /// Advances every voice by one sample, those of note `n` by
    /// `phase_steps[n]`, and drops those that have faded out. Returns, per
    /// note, each voice's part in the sample, faded voices included.
    pub fn render(&mut self, phase_steps: &Vec<u32>, settings: &EnvelopeSettings) -> (frames: Vec<Vec<VoiceFrame>>)
        requires
            old(self).wf(),
            settings.wf(),
            phase_steps@.len() == NOTE_COUNT,
        ensures
            final(self).wf(),
            final(self).table() == spec_advance(old(self).table(), phase_steps@, *settings),
            final(self).spec_lfo_phase() == old(self).spec_lfo_phase(),
            frames@.len() == NOTE_COUNT,
            forall|n: int| 0 <= n < NOTE_COUNT ==> (#[trigger] frames@[n])@ == spec_frames(old(self).table()[n], *settings),
    {
        self.voices.advance(phase_steps, settings)
    }

    /// Number of voices of all notes.
    pub fn voice_count(&self) -> (r: u128)
        requires
            self.wf(),
        ensures
            r == total(self.table()),
    {
        self.voices.voice_count()
    }

    /// The voices of `note`, most recent first; none for a note out of range.
    pub fn voices_of(&self, note: u8) -> (r: Vec<Voice>)
        requires
            self.wf(),
        ensures
            note < NOTE_COUNT ==> r@ == self.table()[note as int],
            note >= NOTE_COUNT ==> r@.len() == 0,
    {
        self.voices.voices_of(note)
    }
}

impl Default for Seriessynth {
    fn default() -> (r: Seriessynth)
        ensures
            r.wf(),
            r.table() == empty_table(),
            r.spec_lfo_phase() == 0,
    {
        Seriessynth::new()
    }
}

/// Writes the same sample to every output channel.
pub fn fill_channels<T: Copy>(channels: &mut Vec<T>, sample: T)
    ensures
        final(channels)@.len() == old(channels)@.len(),
        forall|i: int| 0 <= i < final(channels)@.len() ==> final(channels)@[i] == sample,
{
    let mut i: usize = 0;
    while i < channels.len()
        invariant
            i <= channels@.len(),
            channels@.len() == old(channels)@.len(),
            forall|j: int| 0 <= j < i ==> channels@[j] == sample,
        decreases channels@.len() - i,
    {
        channels.set(i, sample);
        i += 1;
    }
}

} // verus!
