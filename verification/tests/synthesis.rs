use waveform_graph::synth::SampleBuffer;
use waveform_graph::synth::SynthStep;
use waveform_graph::synth::WaveformSynthesizer;

fn harmonic_row(current: &[u32], n: usize, f0: u32, m: u32, ph: f32) -> Vec<u32> {
    let fm = (f0 as f32) * (m as f32);
    let mut out = Vec::with_capacity(n);
    for x in 0..n {
        let cur = f32::from_bits(current[x]);
        let term = (fm * std::f32::consts::TAU * x as f32 / n as f32
            + std::f32::consts::TAU * ph)
            .sin()
            / (m as f32);
        out.push((cur + term).to_bits());
    }
    out
}

fn scale_row(current: &[u32]) -> Vec<u32> {
    current
        .iter()
        .map(|w| (f32::from_bits(*w) * (2.0 / std::f32::consts::PI)).to_bits())
        .collect()
}

fn phase_for(m: u32) -> f32 {
    (m as f32 * 0.377).fract()
}

fn drive_synth(n: usize, f0: u32) -> (SampleBuffer, u32) {
    let mut synth = WaveformSynthesizer::new(n, f0);
    let mut evals: u32 = 0;
    loop {
        match synth.next_step() {
            SynthStep::EvalHarmonic(m) => {
                let ph = phase_for(m);
                let row = harmonic_row(synth.current_samples(), n, f0, m, ph);
                synth.apply_harmonic(ph.to_bits(), row);
                evals += 1;
            }
            SynthStep::Scale => {
                let row = scale_row(synth.current_samples());
                synth.apply_scale(row);
            }
            SynthStep::Finished => break,
        }
    }
    (synth.finish(), evals)
}

#[test]
fn returns_exactly_n_samples() {
    for n in [2usize, 3, 8, 100, 512] {
        let (buffer, _) = drive_synth(n, 1);
        assert_eq!(buffer.words.len(), n);
    }
}

#[test]
fn harmonic_count_is_floor_half_n() {
    let (_, evals) = drive_synth(512, 1);
    assert_eq!(evals, 256);
    let (_, evals) = drive_synth(9, 1);
    assert_eq!(evals, 4);
    let (_, evals) = drive_synth(2, 1);
    assert_eq!(evals, 1);
}

#[test]
fn boundary_harmonic_is_included() {
    // With n = 512 and f0 = 1 the harmonic m = 256 satisfies
    // m * f0 == n / 2 exactly and must still be summed.
    let n = 512usize;
    let mut synth = WaveformSynthesizer::new(n, 1);
    let mut last_m = 0u32;
    while let SynthStep::EvalHarmonic(m) = synth.next_step() {
        last_m = m;
        let row = synth.current_samples().clone();
        synth.apply_harmonic(0, row);
    }
    assert_eq!(last_m, 256);
    assert_eq!(synth.next_step(), SynthStep::Scale);
}

#[test]
fn higher_fundamental_narrows_the_band() {
    // n = 10, f0 = 2: harmonics 1 and 2 lie in the band (2 <= 5, 4 <= 5),
    // harmonic 3 would not (6 > 5).
    let (_, evals) = drive_synth(10, 2);
    assert_eq!(evals, 2);
}

#[test]
fn one_phase_is_drawn_per_harmonic() {
    let n = 64usize;
    let mut synth = WaveformSynthesizer::new(n, 1);
    let mut given: Vec<u32> = Vec::new();
    while let SynthStep::EvalHarmonic(m) = synth.next_step() {
        let ph = phase_for(m).to_bits();
        given.push(ph);
        let row = harmonic_row(synth.current_samples(), n, 1, m, phase_for(m));
        synth.apply_harmonic(ph, row);
    }
    assert_eq!(synth.phases, given);
    assert_eq!(synth.phases.len(), 32);
}

#[test]
fn normalization_keeps_samples_bounded() {
    // After the final 2/pi scaling the peak amplitude stays within ~1.3x
    // the pre-scale peak times 2/pi (a structural, not exact, bound:
    // phases vary per harmonic).
    let n = 512usize;
    let mut synth = WaveformSynthesizer::new(n, 1);
    while let SynthStep::EvalHarmonic(m) = synth.next_step() {
        let ph = phase_for(m);
        let row = harmonic_row(synth.current_samples(), n, 1, m, ph);
        synth.apply_harmonic(ph.to_bits(), row);
    }
    let pre_peak = synth
        .current_samples()
        .iter()
        .map(|w| f32::from_bits(*w).abs())
        .fold(0.0f32, f32::max);
    let row = scale_row(synth.current_samples());
    synth.apply_scale(row);
    let buffer = synth.finish();
    let post_peak = buffer
        .words
        .iter()
        .map(|w| f32::from_bits(*w).abs())
        .fold(0.0f32, f32::max);
    assert!(pre_peak > 0.0);
    assert!(post_peak <= 1.3 * pre_peak * (2.0 / std::f32::consts::PI) + 1e-6);
}

#[test]
fn byte_image_is_little_endian() {
    let buffer = SampleBuffer { words: vec![0x0403_0201, 0x1122_3344] };
    let bytes = buffer.to_bytes();
    assert_eq!(bytes, vec![0x01, 0x02, 0x03, 0x04, 0x44, 0x33, 0x22, 0x11]);
}
