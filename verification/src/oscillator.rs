//! The phase-accumulator oscillator.

use vstd::prelude::*;
use vstd::arithmetic::div_mod::{lemma_add_mod_noop_right, lemma_div_basics, lemma_small_mod};

verus! {

/// Ticks per waveform cycle: the phase accumulator counts positions inside
/// one cycle in units of `1/CYCLE` of a cycle, so a `u32` phase wraps at
/// exactly one full cycle.
pub const CYCLE: u64 = 0x1_0000_0000;

/// The phase step one sample advances: the fraction `freq / rate` of a
/// cycle, in ticks, reduced into one cycle. A frequency at or above the
/// sample rate aliases, exactly as a real phase accumulator does.
pub open spec fn step_of(freq_millihz: int, rate_millihz: int) -> int
    recommends
        rate_millihz > 0,
{
    ((freq_millihz * CYCLE) / rate_millihz) % (CYCLE as int)
}

/// The phase reached from `p` after `n` samples, each advancing by `s`
/// ticks and wrapping at a full cycle.
pub open spec fn phase_after(p: int, s: int, n: nat) -> int
    decreases n,
{
    if n == 0 {
        p
    } else {
        (phase_after(p, s, (n - 1) as nat) + s) % (CYCLE as int)
    }
}

/// A periodic waveform generator: a phase that advances once per sample at
/// a caller-set frequency. The waveform shape itself is the embedding's
/// concern; an oscillator's output is the phase tick each sample is taken
/// at.
pub trait Oscillator: Sized {
    /// Position inside the current cycle, in ticks of `1/CYCLE` of a cycle.
    spec fn phase(&self) -> int;

    /// The current frequency, in millihertz.
    spec fn freq_millihz(&self) -> int;

    /// Ticks advanced per sample.
    spec fn step(&self) -> int;

    /// Samples produced per second, in millihertz; fixed at construction.
    spec fn rate_millihz(&self) -> int;

    /// The oscillator's internal consistency: a positive sample rate and a
    /// step that matches the current frequency.
    spec fn wf(&self) -> bool;

    /// Advance the phase by one sample and return the phase tick the
    /// sample is taken at: the phase from before the advance.
    fn next_sample(&mut self) -> (p: u32)
        requires
            old(self).wf(),
        ensures
            final(self).wf(),
            p as int == old(self).phase(),
            final(self).phase() == (old(self).phase() + old(self).step()) % (CYCLE as int),
            final(self).freq_millihz() == old(self).freq_millihz(),
            final(self).step() == old(self).step(),
            final(self).rate_millihz() == old(self).rate_millihz(),
    ;

    /// Set the frequency, leaving the phase where it is.
    fn set_freq(&mut self, freq_millihz: u64)
        requires
            old(self).wf(),
        ensures
            final(self).wf(),
            final(self).phase() == old(self).phase(),
            final(self).freq_millihz() == freq_millihz,
            final(self).step() == step_of(freq_millihz as int, old(self).rate_millihz()),
            final(self).rate_millihz() == old(self).rate_millihz(),
            *final(self) == old(self).with_freq(freq_millihz),
    ;

    /// The state `set_freq` leaves behind, as a value: same phase and
    /// rate, the new frequency, the matching step.
    spec fn with_freq(self, freq_millihz: u64) -> Self;
}

/// A sine oscillator: the sample taken at phase tick `p` is
/// `sin(2*pi*p/CYCLE)`.
pub struct SineOsc {
    phase: u32,
    freq_millihz: u64,
    step: u32,
    rate_millihz: u64,
}

impl SineOsc {
    /// Create an oscillator at 0 Hz, phase 0, for a device producing
    /// `rate_millihz / 1000` samples per second.
    pub fn new(rate_millihz: u64) -> (o: SineOsc)
        requires
            rate_millihz > 0,
        ensures
            o.wf(),
            o.phase() == 0,
            o.freq_millihz() == 0,
            o.step() == 0,
            o.rate_millihz() == rate_millihz,
    {
        proof {
            lemma_div_basics(rate_millihz as int);
        }
        SineOsc { phase: 0, freq_millihz: 0, step: 0, rate_millihz }
    }
}

impl Oscillator for SineOsc {
    closed spec fn phase(&self) -> int {
        self.phase as int
    }

    closed spec fn freq_millihz(&self) -> int {
        self.freq_millihz as int
    }

    closed spec fn step(&self) -> int {
        self.step as int
    }

    closed spec fn rate_millihz(&self) -> int {
        self.rate_millihz as int
    }

    closed spec fn wf(&self) -> bool {
        self.rate_millihz > 0 && self.step == step_of(
            self.freq_millihz as int,
            self.rate_millihz as int,
        )
    }

    fn next_sample(&mut self) -> (p: u32) {
        let p: u32 = self.phase;
        let advanced: u64 = ((self.phase as u64) + (self.step as u64)) % CYCLE;
        self.phase = advanced as u32;
        p
    }

    fn set_freq(&mut self, freq_millihz: u64) {
        let scaled: u128 = (freq_millihz as u128) * (CYCLE as u128);
        let stepped: u128 = (scaled / (self.rate_millihz as u128)) % (CYCLE as u128);
        self.freq_millihz = freq_millihz;
        self.step = stepped as u32;
    }

    closed spec fn with_freq(self, freq_millihz: u64) -> SineOsc {
        SineOsc {
            phase: self.phase,
            freq_millihz,
            step: (step_of(freq_millihz as int, self.rate_millihz as int)) as u32,
            rate_millihz: self.rate_millihz,
        }
    }
}

/// What well-formedness guarantees, stated for callers outside this
/// module: the sample rate is positive, the step matches the current
/// frequency, and phase and step both lie inside one cycle.
pub proof fn lemma_wf_facts(o: &SineOsc)
    requires
        o.wf(),
    ensures
        o.rate_millihz() > 0,
        o.step() == step_of(o.freq_millihz(), o.rate_millihz()),
        0 <= o.phase() < CYCLE,
        0 <= o.step() < CYCLE,
{
}

/// Setting a frequency overwrites the one before without a trace: the
/// state after `set_freq(first)` then `set_freq(second)` is the state
/// after `set_freq(second)` alone.
pub proof fn lemma_set_freq_overwrites(o: SineOsc, first: u64, second: u64)
    ensures
        o.with_freq(first).with_freq(second) == o.with_freq(second),
{
}

/// The closed form of the phase recurrence: starting inside one cycle and
/// advancing `n` samples by `s` ticks each lands on `(p + n*s) mod CYCLE`.
pub proof fn lemma_phase_after_closed_form(p: int, s: int, n: nat)
    requires
        0 <= p < CYCLE,
        0 <= s,
    ensures
        phase_after(p, s, n) == (p + n * s) % (CYCLE as int),
    decreases n,
{
    if n == 0 {
        lemma_small_mod(p as nat, CYCLE as nat);
    } else {
        let m: nat = (n - 1) as nat;
        lemma_phase_after_closed_form(p, s, m);
        assert(m * s + s == n * s) by (nonlinear_arith)
            requires
                m + 1 == n,
        ;
        lemma_add_mod_noop_right(s, p + m * s, CYCLE as int);
    }
}

/// A step of 0 never moves the phase: the wrap `(p + 0) mod CYCLE` is `p`
/// itself, for every number of samples.
pub proof fn lemma_zero_step_freezes(p: int, n: nat)
    requires
        0 <= p < CYCLE,
    ensures
        phase_after(p, 0, n) == p,
    decreases n,
{
    if n > 0 {
        lemma_zero_step_freezes(p, (n - 1) as nat);
        lemma_small_mod(p as nat, CYCLE as nat);
    }
}

/// A frequency of 0 gives a step of 0, whatever the sample rate.
pub proof fn lemma_zero_freq_zero_step(rate_millihz: int)
    requires
        rate_millihz > 0,
    ensures
        step_of(0, rate_millihz) == 0,
{
    lemma_div_basics(rate_millihz);
}

} // verus!
