use sine_synth::oscillator::{Oscillator, SineOsc};
use sine_synth::synth::{Sample, Synth, GAIN_UNIT};

const CYCLE: u64 = 0x1_0000_0000;

/// The amplitude a sample describes: `sin(2*pi*phase/CYCLE) * gain/GAIN_UNIT`.
fn amplitude(s: &Sample) -> f64 {
    let phase = s.phase as f64 / CYCLE as f64;
    let gain = s.gain as f64 / GAIN_UNIT as f64;
    (2.0 * std::f64::consts::PI * phase).sin() * gain
}

/// The phase step a frequency advances per sample, both in millihertz.
fn step_of(freq: u64, rate: u64) -> u64 {
    ((freq as u128 * CYCLE as u128) / rate as u128 % CYCLE as u128) as u64
}

#[test]
fn new_synth_is_silent_at_phase_zero() {
    let mut s = Synth::new(44_100_000);
    let a = s.next_sample();
    assert_eq!(a.phase, 0);
    assert_eq!(a.gain, GAIN_UNIT / 2);
    let b = s.next_sample();
    assert_eq!(b.phase, 0);
    assert_eq!(amplitude(&b), 0.0);
}

#[test]
fn phase_after_n_samples_is_n_step_mod_cycle() {
    let rate: u64 = 48_000_000;
    let freq: u64 = 440_000;
    let step = step_of(freq, rate);
    let mut s = Synth::new(rate);
    s.note_on(freq);
    for n in 0..1000u64 {
        let got = s.next_sample();
        assert_eq!(got.phase as u64, (n * step) % CYCLE);
    }
}

#[test]
fn note_off_freezes_phase_and_output() {
    let rate: u64 = 44_100_000;
    let mut s = Synth::new(rate);
    s.note_on(110_000);
    let first = s.next_sample();
    assert_eq!(first.phase, 0);
    assert_eq!(amplitude(&first), 0.0);
    let second = s.next_sample();
    assert_eq!(second.phase as u64, step_of(110_000, rate));
    let expected = (2.0 * std::f64::consts::PI * 110.0 / 44_100.0).sin() * 0.5;
    assert!((amplitude(&second) - expected).abs() < 1e-6);

    s.note_off();
    let frozen = s.next_sample();
    for _ in 0..100 {
        let next = s.next_sample();
        assert_eq!(next.phase, frozen.phase);
        assert_eq!(next.gain, frozen.gain);
        assert_eq!(amplitude(&next), amplitude(&frozen));
    }
}

#[test]
fn second_note_on_replaces_the_first() {
    let rate: u64 = 44_100_000;
    let mut s = Synth::new(rate);
    s.note_on(110_000);
    s.note_on(220_000);
    let a = s.next_sample();
    let b = s.next_sample();
    assert_eq!(a.phase, 0);
    assert_eq!(b.phase as u64, step_of(220_000, rate));
    assert_ne!(b.phase as u64, step_of(110_000, rate));
}

#[test]
fn every_sample_lies_within_the_volume() {
    let rate: u64 = 44_100_000;
    for freq in [0u64, 1_000, 110_000, 440_000, 8_000_000, 44_100_000, 96_000_000] {
        let mut s = Synth::new(rate);
        s.note_on(freq);
        for _ in 0..2000 {
            let got = s.next_sample();
            assert!(got.gain <= GAIN_UNIT);
            let volume = got.gain as f64 / GAIN_UNIT as f64;
            let a = amplitude(&got);
            assert!(a.abs() <= volume);
            assert!(volume <= 1.0);
        }
    }
}

#[test]
fn eighth_of_rate_walks_the_eight_point_sine() {
    let mut s = Synth::new(8_000_000);
    s.note_on(1_000_000);
    let half = 0.5;
    let r = std::f64::consts::FRAC_1_SQRT_2;
    let expected = [0.0, r, 1.0, r, 0.0, -r, -1.0, -r];
    for k in 0..8u64 {
        let got = s.next_sample();
        assert_eq!(got.phase as u64, k * (CYCLE / 8));
        assert!((amplitude(&got) - expected[k as usize] * half).abs() < 1e-9);
    }
    let wrapped = s.next_sample();
    assert_eq!(wrapped.phase, 0);
}

#[test]
fn oscillator_frequency_at_sample_rate_aliases_to_standstill() {
    let mut o = SineOsc::new(8_000_000);
    o.set_freq(8_000_000);
    assert_eq!(o.next_sample(), 0);
    assert_eq!(o.next_sample(), 0);
}

#[test]
fn oscillator_phase_wraps_not_clamps() {
    let mut o = SineOsc::new(4_000);
    o.set_freq(3_000);
    assert_eq!(o.next_sample() as u64, 0);
    assert_eq!(o.next_sample() as u64, 3 * CYCLE / 4);
    assert_eq!(o.next_sample() as u64, CYCLE / 2);
    assert_eq!(o.next_sample() as u64, CYCLE / 4);
    assert_eq!(o.next_sample() as u64, 0);
}

#[test]
fn oscillator_set_freq_keeps_phase() {
    let mut o = SineOsc::new(8_000_000);
    o.set_freq(1_000_000);
    let _ = o.next_sample();
    let _ = o.next_sample();
    o.set_freq(2_000_000);
    assert_eq!(o.next_sample() as u64, 2 * (CYCLE / 8));
    assert_eq!(o.next_sample() as u64, 4 * (CYCLE / 8));
}
