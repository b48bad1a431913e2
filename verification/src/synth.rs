//! Additive waveform synthesis, modelled as a step schedule.
//!
//! The synthesizer produces a fixed-length buffer of 32-bit amplitude words
//! by summing harmonics `m = 1, 2, ...` while `m * f0 <= n / 2` (band-limited
//! to the Nyquist bound), drawing one fresh phase per harmonic, and finally
//! scaling every sample once.  The verified core owns the schedule: which
//! harmonic comes next, how many harmonics are summed in total, that exactly
//! one phase is drawn per harmonic, and that the finished buffer holds
//! exactly `n` samples.  The amplitude arithmetic itself is handed in by the
//! driver as an opaque row of 32-bit words, one full row per step.

use vstd::prelude::*;

verus! {

/// Number of amplitude samples the stock waveform uses.
pub const GENERATE_SAMPLES: usize = 512;

/// Largest sample count the synthesizer accepts.  Keeps `4 * n` (the byte
/// size of the sample image) inside `usize` and the harmonic count inside
/// `u32` on every supported target.
pub const MAX_SAMPLES: usize = 0x1000_0000;

/// How many harmonics the additive synthesis sums: the number of indices
/// `m >= 1` with `m * f0 <= n / 2`.
pub open spec fn harmonic_total(n: nat, f0: nat) -> nat
    recommends
        1 <= f0,
{
    (n / 2) / f0
}

/// A harmonic index `m` is summed exactly when it lies in the band
/// `m * f0 <= n / 2`; the bound is inclusive, so the boundary harmonic with
/// `m * f0 == n / 2` is summed too.
pub proof fn lemma_harmonic_in_band(n: nat, f0: nat, m: nat)
    requires
        1 <= f0,
        1 <= m,
    ensures
        (m * f0 <= n / 2) <==> (m <= harmonic_total(n, f0)),
{
    let q = n / 2;
    let t = q / f0;
    assert(q == f0 * t + q % f0 && 0 <= q % f0 < f0) by {
        vstd::arithmetic::div_mod::lemma_fundamental_div_mod(q as int, f0 as int);
        vstd::arithmetic::div_mod::lemma_mod_bound(q as int, f0 as int);
    }
    if m <= t {
        assert(m * f0 <= t * f0) by (nonlinear_arith)
            requires
                m <= t,
                f0 >= 1,
        ;
        assert(t * f0 <= q) by (nonlinear_arith)
            requires
                q == f0 * t + q % f0,
                q % f0 >= 0,
        ;
    }
    if m > t {
        assert(m * f0 >= (t + 1) * f0) by (nonlinear_arith)
            requires
                m >= t + 1,
                f0 >= 1,
        ;
        assert((t + 1) * f0 == t * f0 + f0 && t * f0 == f0 * t) by (nonlinear_arith);
        assert((t + 1) * f0 > q);
    }
}

/// When the fundamental is 1, the harmonic count is exactly `floor(n / 2)`.
pub proof fn lemma_harmonic_count_unit_fundamental(n: nat)
    ensures
        harmonic_total(n, 1) == n / 2,
{
}

/// The next piece of work the synthesis schedule asks of its driver.
#[derive(Clone, Copy, PartialEq, Eq, Structural, Debug)]
pub enum SynthStep {
    /// Draw one fresh phase and accumulate harmonic `m` into every sample.
    EvalHarmonic(u32),
    /// Scale every accumulated sample once.
    Scale,
    /// The sample buffer is complete.
    Finished,
}

/// Additive synthesizer: a state machine over opaque 32-bit amplitude words.
///
/// The driver repeatedly asks [`WaveformSynthesizer::next_step`] what to do,
/// evaluates the amplitude arithmetic for that step, and hands the updated
/// row back through [`WaveformSynthesizer::apply_harmonic`] or
/// [`WaveformSynthesizer::apply_scale`].
pub struct WaveformSynthesizer {
    /// Sample count of the waveform being built.
    pub n: usize,
    /// Fundamental frequency (in units of the sample-grid base frequency).
    pub f0: u32,
    /// Number of harmonics the schedule sums: `harmonic_total(n, f0)`.
    pub total: u32,
    /// Number of harmonics accumulated so far.
    pub applied: u32,
    /// Whether the final scaling pass has run.
    pub scaled: bool,
    /// Current accumulated amplitude words, always exactly `n` of them.
    pub samples: Vec<u32>,
    /// The phase word drawn for each accumulated harmonic, one per harmonic.
    pub phases: Vec<u32>,
}

impl WaveformSynthesizer {
    /// Well-formedness: the sample row always holds exactly `n` words, the
    /// schedule never oversteps its harmonic count, one phase is on record
    /// per accumulated harmonic, and scaling only happens after the last
    /// harmonic.
    pub open spec fn wf(&self) -> bool {
        &&& 2 <= self.n <= MAX_SAMPLES
        &&& 1 <= self.f0
        &&& self.total as nat == harmonic_total(self.n as nat, self.f0 as nat)
        &&& self.applied <= self.total
        &&& self.samples@.len() == self.n
        &&& self.phases@.len() == self.applied
        &&& (self.scaled ==> self.applied == self.total)
    }

    /// Start a synthesis of `n` samples at fundamental `f0`, with every
    /// accumulator word zeroed.
    pub fn new(n: usize, f0: u32) -> (r: WaveformSynthesizer)
        requires
            2 <= n <= MAX_SAMPLES,
            1 <= f0,
        ensures
            r.wf(),
            r.n == n,
            r.f0 == f0,
            r.applied == 0,
            !r.scaled,
            forall|i: int| 0 <= i < n ==> r.samples@[i] == 0u32,
            r.phases@ =~= Seq::<u32>::empty(),
    {
        let half: usize = n / 2;
        let total_wide: usize = half / (f0 as usize);
        assert(total_wide <= half) by (nonlinear_arith)
            requires
                f0 >= 1,
                total_wide == half / (f0 as usize),
                half >= 0,
        ;
        WaveformSynthesizer {
            n,
            f0,
            total: total_wide as u32,
            applied: 0,
            scaled: false,
            samples: zero_words(n),
            phases: Vec::new(),
        }
    }

    /// What the schedule asks for next: the harmonics in order, then one
    /// scaling pass, then nothing.  An emitted harmonic index always lies in
    /// the band `m * f0 <= n / 2`, and the scaling pass is only emitted once
    /// the next candidate index would leave the band.
    pub fn next_step(&self) -> (r: SynthStep)
        requires
            self.wf(),
        ensures
            self.applied < self.total ==> r == SynthStep::EvalHarmonic((self.applied + 1) as u32),
            self.applied == self.total && !self.scaled ==> r == SynthStep::Scale,
            self.applied == self.total && self.scaled ==> r == SynthStep::Finished,
            (r matches SynthStep::EvalHarmonic(m) ==> m as nat * self.f0 as nat <= self.n as nat
                / 2),
            r == SynthStep::Scale || r == SynthStep::Finished ==> (self.total + 1) as nat
                * self.f0 as nat > self.n as nat / 2,
    {
        proof {
            lemma_harmonic_in_band(self.n as nat, self.f0 as nat, (self.applied + 1) as nat);
            lemma_harmonic_in_band(self.n as nat, self.f0 as nat, (self.total + 1) as nat);
        }
        if self.applied < self.total {
            SynthStep::EvalHarmonic(self.applied + 1)
        } else if !self.scaled {
            SynthStep::Scale
        } else {
            SynthStep::Finished
        }
    }

    /// Record harmonic `applied + 1`: the driver drew exactly one fresh
    /// phase for it and accumulated its contribution into every sample word.
    pub fn apply_harmonic(&mut self, phase: u32, accumulated: Vec<u32>)
        requires
            old(self).wf(),
            old(self).applied < old(self).total,
            accumulated@.len() == old(self).n,
        ensures
            final(self).wf(),
            final(self).n == old(self).n,
            final(self).f0 == old(self).f0,
            final(self).total == old(self).total,
            final(self).applied == old(self).applied + 1,
            !final(self).scaled,
            final(self).samples@ == accumulated@,
            final(self).phases@ == old(self).phases@.push(phase),
    {
        self.samples = accumulated;
        self.phases.push(phase);
        self.applied = self.applied + 1;
    }

    /// Record the one scaling pass over the fully accumulated row.
    pub fn apply_scale(&mut self, scaled_samples: Vec<u32>)
        requires
            old(self).wf(),
            old(self).applied == old(self).total,
            !old(self).scaled,
            scaled_samples@.len() == old(self).n,
        ensures
            final(self).wf(),
            final(self).n == old(self).n,
            final(self).f0 == old(self).f0,
            final(self).total == old(self).total,
            final(self).applied == old(self).applied,
            final(self).scaled,
            final(self).samples@ == scaled_samples@,
            final(self).phases@ == old(self).phases@,
    {
        self.samples = scaled_samples;
        self.scaled = true;
    }

    /// Finish the synthesis: the result holds exactly `n` samples.
    pub fn finish(self) -> (r: SampleBuffer)
        requires
            self.wf(),
            self.scaled,
        ensures
            r.wf(),
            r.words@ == self.samples@,
            r.words@.len() == self.n,
    {
        SampleBuffer { words: self.samples }
    }

    /// How many samples the finished waveform will hold.
    pub fn sample_count(&self) -> (r: usize)
        ensures
            r == self.n,
    {
        self.n
    }

    /// How many harmonics have been accumulated so far.
    pub fn harmonics_applied(&self) -> (r: u32)
        ensures
            r == self.applied,
    {
        self.applied
    }

    /// How many harmonics the schedule sums in total.
    pub fn planned_harmonics(&self) -> (r: u32)
        ensures
            r == self.total,
    {
        self.total
    }

    /// The current accumulated row, for the driver to read before a step.
    pub fn current_samples(&self) -> (r: &Vec<u32>)
        ensures
            r@ == self.samples@,
    {
        &self.samples
    }
}

/// A finished waveform: an ordered, fixed-length row of 32-bit amplitude
/// words, index-addressed.
pub struct SampleBuffer {
    /// The amplitude words, in sample order.
    pub words: Vec<u32>,
}

/// The little-endian byte image of one 32-bit amplitude word.
pub open spec fn word_bytes(w: u32) -> Seq<u8> {
    seq![
        (w & 0xff) as u8,
        ((w >> 8) & 0xff) as u8,
        ((w >> 16) & 0xff) as u8,
        ((w >> 24) & 0xff) as u8,
    ]
}

/// The little-endian byte image of a whole sample row, word by word.
pub open spec fn words_to_bytes(ws: Seq<u32>) -> Seq<u8>
    decreases ws.len(),
{
    if ws.len() == 0 {
        Seq::empty()
    } else {
        words_to_bytes(ws.drop_last()) + word_bytes(ws.last())
    }
}

/// The byte image is four bytes per word.
pub proof fn lemma_words_to_bytes_len(ws: Seq<u32>)
    ensures
        words_to_bytes(ws).len() == 4 * ws.len(),
    decreases ws.len(),
{
    if ws.len() > 0 {
        lemma_words_to_bytes_len(ws.drop_last());
    }
}

impl SampleBuffer {
    /// Well-formedness: at least two samples, and few enough that the byte
    /// image fits in `usize`.
    pub open spec fn wf(&self) -> bool {
        2 <= self.words@.len() <= MAX_SAMPLES
    }

    /// Number of samples.
    pub fn len(&self) -> (r: usize)
        ensures
            r == self.words@.len(),
    {
        self.words.len()
    }

    /// Size of the byte image: four bytes per sample.
    pub fn byte_size(&self) -> (r: usize)
        requires
            self.wf(),
        ensures
            r == 4 * self.words@.len(),
    {
        4 * self.words.len()
    }

    /// The exact little-endian byte image of the sample row, as it is staged
    /// for upload.
    pub fn to_bytes(&self) -> (r: Vec<u8>)
        requires
            self.wf(),
        ensures
            r@ == words_to_bytes(self.words@),
            r@.len() == 4 * self.words@.len(),
    {
        let mut out: Vec<u8> = Vec::new();
        let mut i: usize = 0;
        while i < self.words.len()
            invariant
                i <= self.words@.len(),
                self.wf(),
                out@ == words_to_bytes(self.words@.take(i as int)),
            decreases self.words@.len() - i,
        {
            let w = self.words[i];
            out.push((w & 0xff) as u8);
            out.push(((w >> 8) & 0xff) as u8);
            out.push(((w >> 16) & 0xff) as u8);
            out.push(((w >> 24) & 0xff) as u8);
            proof {
                let upto = self.words@.take((i + 1) as int);
                assert(upto.drop_last() =~= self.words@.take(i as int));
                assert(upto.last() == self.words@[i as int]);
                assert(out@ =~= words_to_bytes(self.words@.take(i as int)) + word_bytes(w));
            }
            i = i + 1;
        }
        proof {
            assert(self.words@.take(self.words@.len() as int) =~= self.words@);
            lemma_words_to_bytes_len(self.words@);
        }
        out
    }
}

/// A row of `n` zeroed 32-bit words: the synthesis accumulator's start state.
pub fn zero_words(n: usize) -> (r: Vec<u32>)
    ensures
        r@.len() == n,
        forall|i: int| 0 <= i < n ==> r@[i] == 0u32,
{
    let mut v: Vec<u32> = Vec::new();
    let mut i: usize = 0;
    while i < n
        invariant
            i <= n,
            v@.len() == i,
            forall|j: int| 0 <= j < i ==> v@[j] == 0u32,
        decreases n - i,
    {
        v.push(0);
        i = i + 1;
    }
    v
}

} // verus!
