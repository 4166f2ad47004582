//! The single playable voice.

use vstd::prelude::*;
use crate::oscillator::{
    lemma_set_freq_overwrites, lemma_wf_facts, lemma_zero_freq_zero_step, lemma_zero_step_freezes,
    phase_after, step_of, Oscillator, SineOsc, CYCLE,
};

verus! {

/// Full scale for the voice's gain: a gain of `GAIN_UNIT` is an amplitude
/// factor of exactly 1.
pub const GAIN_UNIT: u32 = 0x1_0000;

/// One output sample, described exactly: its amplitude is
/// `sin(2*pi*phase/CYCLE) * gain/GAIN_UNIT`. The sine and the final
/// scaling take floating point, so the embedding computes them from these
/// two integers.
pub struct Sample {
    /// The phase tick the sample is taken at, in `1/CYCLE` of a cycle.
    pub phase: u32,
    /// The amplitude scale applied to the waveform, in `1/GAIN_UNIT`.
    pub gain: u32,
}

/// A single-voice sine synth: one oscillator and a fixed volume. Silence
/// is encoded as frequency 0, as the oscillator then freezes at its
/// current phase: a note-off does not zero the output, it holds the sine
/// at whatever amplitude it had. That is this design's convention, kept
/// deliberately.
pub struct Synth {
    osc: SineOsc,
    volume: u32,
}

impl Synth {
    /// Position inside the current cycle, in ticks of `1/CYCLE` of a cycle.
    pub closed spec fn phase(&self) -> int {
        self.osc.phase()
    }

    /// The sounding frequency in millihertz; 0 means the voice is silent
    /// in the sense above.
    pub closed spec fn freq_millihz(&self) -> int {
        self.osc.freq_millihz()
    }

    /// Ticks the phase advances per sample.
    pub closed spec fn step(&self) -> int {
        self.osc.step()
    }

    /// Samples produced per second, in millihertz; fixed at construction.
    pub closed spec fn rate_millihz(&self) -> int {
        self.osc.rate_millihz()
    }

    /// The amplitude scale, in `1/GAIN_UNIT`; constant for the voice's
    /// whole life.
    pub closed spec fn volume(&self) -> int {
        self.volume as int
    }

    /// The voice's internal consistency: a well-formed oscillator and a
    /// volume that never exceeds full scale.
    pub closed spec fn wf(&self) -> bool {
        self.osc.wf() && self.volume <= GAIN_UNIT
    }

    /// The state a note event leaves behind: same phase, rate and volume,
    /// the new frequency with its matching step.
    pub closed spec fn with_freq(self, freq_millihz: u64) -> Synth {
        Synth { osc: self.osc.with_freq(freq_millihz), volume: self.volume }
    }

    /// Create a silent voice at phase 0 with volume 1/2, for a device
    /// producing `rate_millihz / 1000` samples per second.
    pub fn new(rate_millihz: u64) -> (s: Synth)
        requires
            rate_millihz > 0,
        ensures
            s.wf(),
            s.phase() == 0,
            s.freq_millihz() == 0,
            s.step() == 0,
            s.rate_millihz() == rate_millihz,
            s.volume() == GAIN_UNIT / 2,
    {
        Synth { osc: SineOsc::new(rate_millihz), volume: GAIN_UNIT / 2 }
    }

    /// Produce one sample: the phase tick from before the advance, scaled
    /// by the voice's volume. Called once per output sample by the audio
    /// callback.
    pub fn next_sample(&mut self) -> (s: Sample)
        requires
            old(self).wf(),
        ensures
            final(self).wf(),
            s.phase as int == old(self).phase(),
            s.gain as int == old(self).volume(),
            s.gain <= GAIN_UNIT,
            final(self).phase() == (old(self).phase() + old(self).step()) % (CYCLE as int),
            final(self).phase() == phase_after(old(self).phase(), old(self).step(), 1),
            final(self).freq_millihz() == old(self).freq_millihz(),
            final(self).step() == old(self).step(),
            final(self).rate_millihz() == old(self).rate_millihz(),
            final(self).volume() == old(self).volume(),
    {
        proof {
            reveal_with_fuel(phase_after, 2);
        }
        let phase: u32 = self.osc.next_sample();
        Sample { phase, gain: self.volume }
    }

    /// Turn a note on by setting the oscillator's frequency. A new note
    /// replaces whatever sounded before; the phase is not reset, so the
    /// waveform continues from where it was.
    pub fn note_on(&mut self, freq_millihz: u64)
        requires
            old(self).wf(),
        ensures
            final(self).wf(),
            final(self).phase() == old(self).phase(),
            final(self).freq_millihz() == freq_millihz,
            final(self).step() == step_of(freq_millihz as int, old(self).rate_millihz()),
            final(self).rate_millihz() == old(self).rate_millihz(),
            final(self).volume() == old(self).volume(),
            *final(self) == old(self).with_freq(freq_millihz),
    {
        self.osc.set_freq(freq_millihz);
    }

    /// Turn the note off by setting the frequency to 0: the phase stops
    /// advancing and the output freezes at its current value.
    pub fn note_off(&mut self)
        requires
            old(self).wf(),
        ensures
            final(self).wf(),
            final(self).phase() == old(self).phase(),
            final(self).freq_millihz() == 0,
            final(self).step() == 0,
            final(self).rate_millihz() == old(self).rate_millihz(),
            final(self).volume() == old(self).volume(),
            *final(self) == old(self).with_freq(0),
    {
        proof {
            lemma_wf_facts(&old(self).osc);
            lemma_zero_freq_zero_step(old(self).rate_millihz());
        }
        self.osc.set_freq(0);
    }
}

/// Monophonic replace: a second note-on with no samples pulled in between
/// leaves exactly the state the second note-on alone would have left; no
/// trace of the first frequency remains.
pub proof fn lemma_monophonic_replace(s: Synth, first: u64, second: u64)
    ensures
        s.with_freq(first).with_freq(second) == s.with_freq(second),
{
    lemma_set_freq_overwrites(s.osc, first, second);
}

/// Silence convention: once the frequency is 0 the step is 0, so however
/// many samples are pulled the phase never moves, and every sample is
/// taken at the same frozen phase tick with the same gain — a constant,
/// not necessarily zero, output value.
pub proof fn lemma_silence_freezes(s: Synth, n: nat)
    requires
        s.wf(),
        s.freq_millihz() == 0,
    ensures
        s.step() == 0,
        phase_after(s.phase(), s.step(), n) == s.phase(),
{
    lemma_wf_facts(&s.osc);
    lemma_zero_freq_zero_step(s.rate_millihz());
    lemma_zero_step_freezes(s.phase(), n);
}

} // verus!
