use crate::constants::{BASS_BIN_COUNT, SAMPLE_SIZE, SPECTRUM_BOOST};
use crate::error::{AppError, AppErrorView};
use crate::plugin::EffectKind;
use vstd::arithmetic::power::pow;
use vstd::prelude::*;
use vstd::string::*;

verus! {

/// The message of the error for an FFT whose size is not the snapshot's
/// length.
pub open spec fn fft_size_message() -> Seq<char> {
    "FFT size must equal the audio snapshot length"@
}

/// The message of the error for more bass bins than there are magnitude
/// bins.
pub open spec fn bass_bins_message() -> Seq<char> {
    "Bass bin count must not exceed the number of magnitude bins"@
}

/// The sizes that the spectral analysis of a snapshot works with.
#[derive(Clone, Copy, Debug, PartialEq, Eq)]
pub struct SpectrumAnalyzer {
    fft_size: usize,
    bass_bins: usize,
}

impl SpectrumAnalyzer {
    #[verifier::type_invariant]
    spec fn inv(self) -> bool {
        self.bass_bins <= self.fft_size / 2
    }

    /// Number of samples that one FFT transforms: the length of a snapshot.
    pub closed spec fn spec_fft_size(self) -> nat {
        self.fft_size as nat
    }

    /// Number of lowest bins whose mean is the bass energy.
    pub closed spec fn spec_bass_bins(self) -> nat {
        self.bass_bins as nat
    }

    /// Number of magnitude bins: the half of the FFT's output that holds no
    /// mirror image for real input.
    pub open spec fn spec_bins(self) -> nat {
        self.spec_fft_size() / 2
    }

    /// Number of values that go to the GPU for an effect of kind `kind`:
    /// the magnitude bins, or the whole snapshot.
    pub open spec fn spec_payload_len(self, kind: EffectKind) -> nat {
        match kind {
            EffectKind::Spectrum => self.spec_bins(),
            EffectKind::Waveform => self.spec_fft_size(),
        }
    }

    /// The analysis of snapshots of `snapshot_len` samples with an FFT of
    /// `fft_size` points and `bass_bins` bass bins. The FFT must be as long
    /// as the snapshot, and the bass bins must be among the magnitude bins.
    pub fn new(snapshot_len: usize, fft_size: usize, bass_bins: usize) -> (analyzer: Result<
        SpectrumAnalyzer,
        AppError,
    >)
        ensures
            match analyzer {
                Ok(a) => fft_size == snapshot_len && bass_bins <= snapshot_len / 2
                    && a.spec_fft_size() == fft_size && a.spec_bass_bins() == bass_bins,
                Err(e) => {
                    ||| fft_size != snapshot_len && e@ == AppErrorView::Config(fft_size_message())
                    ||| fft_size == snapshot_len && bass_bins > snapshot_len / 2 && e@
                        == AppErrorView::Config(bass_bins_message())
                },
            },
    {
        if fft_size != snapshot_len {
            Err(AppError::Config(String::from_str("FFT size must equal the audio snapshot length")))
        } else if bass_bins > snapshot_len / 2 {
            Err(
                AppError::Config(
                    String::from_str("Bass bin count must not exceed the number of magnitude bins"),
                ),
            )
        } else {
            Ok(SpectrumAnalyzer { fft_size, bass_bins })
        }
    }

    /// The analysis the engine runs with.
    pub fn standard() -> (analyzer: SpectrumAnalyzer)
        ensures
            analyzer.spec_fft_size() == SAMPLE_SIZE,
            analyzer.spec_bass_bins() == BASS_BIN_COUNT,
    {
        SpectrumAnalyzer { fft_size: SAMPLE_SIZE, bass_bins: BASS_BIN_COUNT }
    }

    pub fn fft_size(&self) -> (size: usize)
        ensures
            size == self.spec_fft_size(),
    {
        self.fft_size
    }

    pub fn bins(&self) -> (bins: usize)
        ensures
            bins == self.spec_bins(),
    {
        self.fft_size / 2
    }

    pub fn bass_bins(&self) -> (bins: usize)
        ensures
            bins == self.spec_bass_bins(),
            bins <= self.spec_bins(),
    {
        proof {
            use_type_invariant(self);
        }
        self.bass_bins
    }

    /// Whether a snapshot of `snapshot_len` samples can be analyzed.
    pub fn accepts(&self, snapshot_len: usize) -> (accepted: bool)
        ensures
            accepted == (snapshot_len == self.spec_fft_size()),
    {
        snapshot_len == self.fft_size
    }

    pub fn payload_len(&self, kind: EffectKind) -> (len: usize)
        ensures
            len == self.spec_payload_len(kind),
            len <= self.spec_fft_size(),
    {
        match kind {
            EffectKind::Spectrum => self.fft_size / 2,
            EffectKind::Waveform => self.fft_size,
        }
    }
}

/// The factor on a normalized magnitude, in millionths: intensity times gain
/// times the fixed boost, for intensity and gain in thousandths.
pub open spec fn spec_spectrum_scale(intensity: u32, gain: u32) -> int {
    intensity * gain * SPECTRUM_BOOST
}

pub fn spectrum_scale(intensity: u32, gain: u32) -> (scale: u128)
    ensures
        scale == spec_spectrum_scale(intensity, gain),
{
    assert(intensity * gain <= 0xffff_fffe_0000_0001) by (nonlinear_arith)
        requires
            intensity <= 0xffff_ffff,
            gain <= 0xffff_ffff,
    ;
    let product: u128 = (intensity as u128) * (gain as u128);
    assert(product * SPECTRUM_BOOST <= 0xffff_fffe_0000_0001 * 50) by (nonlinear_arith)
        requires
            product <= 0xffff_fffe_0000_0001,
            SPECTRUM_BOOST == 50,
    ;
    product * (SPECTRUM_BOOST as u128)
}

/// One, in the billionths in which magnitudes are held.
pub const UNIT: u32 = 1000000000;

/// The smoothing factor as a weight: no more than one.
pub open spec fn spec_alpha(smoothing: u32) -> u32 {
    if smoothing > 1000 {
        1000
    } else {
        smoothing
    }
}

/// A normalized magnitude after scaling: the magnitude times intensity times
/// gain times the fixed boost, held at one. Magnitudes are in billionths,
/// intensity and gain in thousandths.
pub open spec fn spec_scaled(magnitude: u32, intensity: u32, gain: u32) -> u32 {
    let product = magnitude * spec_spectrum_scale(intensity, gain) / 1000000;
    if product >= UNIT {
        UNIT
    } else {
        product as u32
    }
}

/// One step of exponential smoothing: the previous value weighted with one
/// minus the smoothing factor plus the new value weighted with the
/// smoothing factor, rounded down to a billionth.
pub open spec fn spec_smoothed(previous: u32, new: u32, smoothing: u32) -> u32 {
    ((previous * (1000 - spec_alpha(smoothing)) + new * spec_alpha(smoothing)) / 1000) as u32
}

/// The sum of the values of `values`.
pub open spec fn sum_of(values: Seq<u32>) -> nat
    decreases values.len(),
{
    if values.len() == 0 {
        0
    } else {
        sum_of(values.drop_last()) + values.last() as nat
    }
}

/// The bass energy of a smoothed spectrum: the mean of its lowest
/// `bass_bins` bins times the boost, held at one; zero without bass bins.
pub open spec fn spec_bass(smoothed: Seq<u32>, bass_bins: nat, boost: u32) -> u32 {
    if bass_bins == 0 {
        0
    } else {
        let boosted = (sum_of(smoothed.take(bass_bins as int)) / bass_bins) * boost / 1000;
        if boosted >= UNIT {
            UNIT
        } else {
            boosted as u32
        }
    }
}

/// The smoothed spectrum after a frame with the magnitudes `magnitudes`.
pub open spec fn spec_absorbed(
    smoothed: Seq<u32>,
    magnitudes: Seq<u32>,
    intensity: u32,
    gain: u32,
    smoothing: u32,
) -> Seq<u32> {
    Seq::new(
        smoothed.len(),
        |i: int| spec_smoothed(smoothed[i], spec_scaled(magnitudes[i], intensity, gain), smoothing),
    )
}

/// Every value is between zero and one.
pub open spec fn all_in_unit(values: Seq<u32>) -> bool {
    forall|i: int| 0 <= i < values.len() ==> values[i] <= UNIT
}

pub fn scaled(magnitude: u32, intensity: u32, gain: u32) -> (value: u32)
    ensures
        value == spec_scaled(magnitude, intensity, gain),
        value <= UNIT,
{
    let scale: u128 = spectrum_scale(intensity, gain);
    assert(scale <= 0xffff_fffe_0000_0001 * 50) by (nonlinear_arith)
        requires
            scale == intensity * gain * SPECTRUM_BOOST,
            SPECTRUM_BOOST == 50,
            intensity <= 0xffff_ffff,
            gain <= 0xffff_ffff,
    ;
    assert(magnitude * scale <= 0xffff_ffff * (0xffff_fffe_0000_0001 * 50)) by (nonlinear_arith)
        requires
            magnitude <= 0xffff_ffff,
            0 <= scale <= 0xffff_fffe_0000_0001 * 50,
    ;
    let product: u128 = (magnitude as u128) * scale / 1000000;
    if product >= UNIT as u128 {
        UNIT
    } else {
        product as u32
    }
}

pub fn smoothed(previous: u32, new: u32, smoothing: u32) -> (value: u32)
    ensures
        value == spec_smoothed(previous, new, smoothing),
        previous <= UNIT && new <= UNIT ==> value <= UNIT,
        previous <= new ==> previous <= value <= new,
        new <= previous ==> new <= value <= previous,
{
    let alpha: u64 = if smoothing > 1000 {
        1000
    } else {
        smoothing as u64
    };
    let keep: u64 = 1000 - alpha;
    assert(previous * keep + new * alpha <= 0xffff_ffff * 1000) by (nonlinear_arith)
        requires
            previous <= 0xffff_ffff,
            new <= 0xffff_ffff,
            0 <= alpha <= 1000,
            keep == 1000 - alpha,
    ;
    proof {
        lemma_smoothed_between(previous, new, smoothing);
    }
    let value: u64 = ((previous as u64) * keep + (new as u64) * alpha) / 1000;
    value as u32
}

/// A smoothed value lies between the previous value and the new one.
pub proof fn lemma_smoothed_between(previous: u32, new: u32, smoothing: u32)
    ensures
        previous <= new ==> previous <= spec_smoothed(previous, new, smoothing) <= new,
        new <= previous ==> new <= spec_smoothed(previous, new, smoothing) <= previous,
{
    let a = spec_alpha(smoothing) as int;
    let total = previous * (1000 - a) + new * a;
    if previous <= new {
        assert(previous * 1000 <= total <= new * 1000) by (nonlinear_arith)
            requires
                0 <= a <= 1000,
                0 <= previous <= new,
                total == previous * (1000 - a) + new * a,
        ;
    }
    if new <= previous {
        assert(new * 1000 <= total <= previous * 1000) by (nonlinear_arith)
            requires
                0 <= a <= 1000,
                0 <= new <= previous,
                total == previous * (1000 - a) + new * a,
        ;
    }
}

/// The law of silence: magnitudes of zero scale to zero whatever the
/// intensity and gain, a smoothed value of zero stays zero under them, any
/// smoothed value does not rise under them, and a spectrum of zeros has no
/// bass energy.
pub proof fn lemma_silence(
    previous: u32,
    intensity: u32,
    gain: u32,
    smoothing: u32,
    bins: nat,
    bass_bins: nat,
    boost: u32,
)
    ensures
        spec_scaled(0, intensity, gain) == 0,
        spec_smoothed(0, spec_scaled(0, intensity, gain), smoothing) == 0,
        spec_smoothed(previous, spec_scaled(0, intensity, gain), smoothing) <= previous,
        spec_absorbed(
            Seq::new(bins, |i: int| 0u32),
            Seq::new(bins, |i: int| 0u32),
            intensity,
            gain,
            smoothing,
        ) == Seq::new(bins, |i: int| 0u32),
        bass_bins <= bins ==> spec_bass(Seq::new(bins, |i: int| 0u32), bass_bins, boost) == 0,
{
    assert(0 * spec_spectrum_scale(intensity, gain) == 0) by (nonlinear_arith);
    assert(spec_scaled(0, intensity, gain) == 0);
    lemma_smoothed_between(previous, 0, smoothing);
    lemma_smoothed_between(0, 0, smoothing);
    let zeros = Seq::new(bins, |i: int| 0u32);
    assert(spec_absorbed(zeros, zeros, intensity, gain, smoothing) =~= zeros);
    if bass_bins <= bins {
        lemma_sum_of_zeros(zeros.take(bass_bins as int));
        if bass_bins > 0 {
            assert(0nat / bass_bins == 0) by (nonlinear_arith)
                requires
                    bass_bins > 0,
            ;
            assert(0 * boost == 0) by (nonlinear_arith);
        }
    }
}

/// The smoothed spectrum after `frames` frames of silence.
pub open spec fn after_silence(
    smoothed: Seq<u32>,
    intensity: u32,
    gain: u32,
    smoothing: u32,
    frames: nat,
) -> Seq<u32>
    decreases frames,
{
    if frames == 0 {
        smoothed
    } else {
        spec_absorbed(
            after_silence(smoothed, intensity, gain, smoothing, (frames - 1) as nat),
            Seq::new(smoothed.len(), |i: int| 0u32),
            intensity,
            gain,
            smoothing,
        )
    }
}

/// Silence stays silence however many frames pass: a spectrum of zeros fed
/// with magnitudes of zero is a spectrum of zeros after any number of
/// frames, and has no bass energy.
pub proof fn lemma_silence_forever(
    bins: nat,
    intensity: u32,
    gain: u32,
    smoothing: u32,
    frames: nat,
    bass_bins: nat,
    boost: u32,
)
    requires
        bass_bins <= bins,
    ensures
        after_silence(Seq::new(bins, |i: int| 0u32), intensity, gain, smoothing, frames)
            == Seq::new(bins, |i: int| 0u32),
        spec_bass(
            after_silence(Seq::new(bins, |i: int| 0u32), intensity, gain, smoothing, frames),
            bass_bins,
            boost,
        ) == 0,
    decreases frames,
{
    lemma_silence(0, intensity, gain, smoothing, bins, bass_bins, boost);
    if frames > 0 {
        lemma_silence_forever(
            bins,
            intensity,
            gain,
            smoothing,
            (frames - 1) as nat,
            bass_bins,
            boost,
        );
    }
}

/// Zeros add up to zero.
pub proof fn lemma_sum_of_zeros(values: Seq<u32>)
    requires
        forall|i: int| 0 <= i < values.len() ==> values[i] == 0,
    ensures
        sum_of(values) == 0,
    decreases values.len(),
{
    if values.len() > 0 {
        lemma_sum_of_zeros(values.drop_last());
    }
}

/// The value after `frames` frames of smoothing from `start` towards a
/// constant input of one.
pub open spec fn step_response(start: u32, smoothing: u32, frames: nat) -> u32
    decreases frames,
{
    if frames == 0 {
        start
    } else {
        spec_smoothed(step_response(start, smoothing, (frames - 1) as nat), UNIT, smoothing)
    }
}

/// The law of the step response, for one frame: from zero towards a
/// constant input of one, the smoothed value after one frame is the
/// smoothing factor itself. From any value, what is missing to one shrinks
/// by the factor one minus the smoothing factor, up to the rounding of one
/// billionth.
pub proof fn lemma_step_once(previous: u32, smoothing: u32)
    requires
        previous <= UNIT,
        smoothing <= 1000,
    ensures
        spec_smoothed(0, UNIT, smoothing) == smoothing * (UNIT / 1000),
        previous <= spec_smoothed(previous, UNIT, smoothing) <= UNIT,
        1000 * (UNIT - spec_smoothed(previous, UNIT, smoothing)) >= (UNIT - previous) * (1000
            - smoothing),
        1000 * (UNIT - spec_smoothed(previous, UNIT, smoothing)) < (UNIT - previous) * (1000
            - smoothing) + 1000,
{
    lemma_smoothed_between(previous, UNIT, smoothing);
    let a = smoothing as int;
    assert((0 * (1000 - a) + 1000000000 * a) / 1000 == a * 1000000) by (nonlinear_arith)
        requires
            0 <= a <= 1000,
    ;
    let total = previous * (1000 - a) + 1000000000 * a;
    let next = total / 1000;
    assert(1000 * next <= total < 1000 * next + 1000) by (nonlinear_arith)
        requires
            next == total / 1000,
            total >= 0,
    ;
    assert(1000 * 1000000000 - total == (1000000000 - previous) * (1000 - a)) by (nonlinear_arith)
        requires
            total == previous * (1000 - a) + 1000000000 * a,
    ;
}

/// The law of the step response, for any number of frames: what is missing
/// to one after `frames` frames from zero is no less than one times the
/// `frames`-th power of one minus the smoothing factor, and exceeds it by
/// no more than one billionth for each frame. The smoothed value so follows
/// one minus that power from below and never falls.
pub proof fn lemma_step_response(smoothing: u32, frames: nat)
    requires
        smoothing <= 1000,
    ensures
        step_response(0, smoothing, frames) <= UNIT,
        frames > 0 ==> step_response(0, smoothing, (frames - 1) as nat) <= step_response(
            0,
            smoothing,
            frames,
        ),
        pow(1000, frames) * (UNIT - step_response(0, smoothing, frames)) >= UNIT * pow(
            1000 - smoothing,
            frames,
        ),
        pow(1000, frames) * (UNIT - step_response(0, smoothing, frames)) <= UNIT * pow(
            1000 - smoothing,
            frames,
        ) + frames * pow(1000, frames),
    decreases frames,
{
    let q = 1000 - smoothing as int;
    vstd::arithmetic::power::lemma_pow0(1000);
    vstd::arithmetic::power::lemma_pow0(q);
    if frames == 0 {
        assert(pow(1000, 0) == 1 && pow(q, 0) == 1);
    } else {
        let before = (frames - 1) as nat;
        lemma_step_response(smoothing, before);
        let value_before = step_response(0, smoothing, before);
        let value_now = step_response(0, smoothing, frames);
        lemma_step_once(value_before, smoothing);
        let gap_before = UNIT - value_before;
        let gap_now = UNIT - value_now;
        let scale_before = pow(1000, before);
        let scale_now = pow(1000, frames);
        let decay_before = pow(q, before);
        let decay_now = pow(q, frames);
        vstd::arithmetic::power::lemma_pow_positive(1000, before);
        assert(scale_now == 1000 * scale_before) by {
            reveal(pow);
        }
        assert(decay_now == q * decay_before) by {
            reveal(pow);
        }
        assert(decay_before >= 0) by {
            if q > 0 {
                vstd::arithmetic::power::lemma_pow_positive(q, before);
            } else {
                if before > 0 {
                    vstd::arithmetic::power::lemma0_pow(before);
                }
            }
        }
        assert(scale_now * gap_now >= UNIT * decay_now) by (nonlinear_arith)
            requires
                scale_now == 1000 * scale_before,
                decay_now == q * decay_before,
                scale_before * gap_before >= UNIT * decay_before,
                1000 * gap_now >= gap_before * q,
                scale_before > 0,
                q >= 0,
                decay_before >= 0,
                gap_before >= 0,
        ;
        assert(scale_now * gap_now <= UNIT * decay_now + frames * scale_now) by (nonlinear_arith)
            requires
                scale_now == 1000 * scale_before,
                decay_now == q * decay_before,
                scale_before * gap_before <= UNIT * decay_before + before * scale_before,
                1000 * gap_now < gap_before * q + 1000,
                scale_before > 0,
                0 <= q <= 1000,
                decay_before >= 0,
                gap_before >= 0,
                frames == before + 1,
        ;
    }
}

/// The running state of the spectral analysis: the smoothed magnitude of
/// each bin and the bass energy, all between zero and one, in billionths.
#[derive(Debug)]
pub struct SpectrumState {
    sizes: SpectrumAnalyzer,
    smoothed: Vec<u32>,
    bass_energy: u32,
}

impl SpectrumState {
    #[verifier::type_invariant]
    spec fn inv(self) -> bool {
        &&& self.smoothed@.len() == self.sizes.spec_bins()
        &&& all_in_unit(self.smoothed@)
        &&& self.bass_energy <= UNIT
    }

    /// The sizes that the analysis works with.
    pub closed spec fn spec_sizes(self) -> SpectrumAnalyzer {
        self.sizes
    }

    /// The smoothed magnitude of each bin.
    pub closed spec fn spec_bins(self) -> Seq<u32> {
        self.smoothed@
    }

    /// The bass energy.
    pub closed spec fn spec_bass_energy(self) -> u32 {
        self.bass_energy
    }

    /// The state before the first frame: silence.
    pub fn new(sizes: SpectrumAnalyzer) -> (state: SpectrumState)
        ensures
            state.spec_sizes() == sizes,
            state.spec_bins() == Seq::new(sizes.spec_bins(), |i: int| 0u32),
            state.spec_bass_energy() == 0,
    {
        let bins: usize = sizes.bins();
        let mut smoothed: Vec<u32> = Vec::new();
        let mut i: usize = 0;
        while i < bins
            invariant
                i <= bins,
                smoothed@.len() == i,
                forall|j: int| 0 <= j < i ==> smoothed@[j] == 0,
            decreases bins - i,
        {
            smoothed.push(0);
            i += 1;
        }
        assert(smoothed@ =~= Seq::new(sizes.spec_bins(), |i: int| 0u32));
        SpectrumState { sizes, smoothed, bass_energy: 0 }
    }

    /// The smoothed magnitude of each bin, between zero and one.
    pub fn bins(&self) -> (bins: &Vec<u32>)
        ensures
            bins@ == self.spec_bins(),
            bins@.len() == self.spec_sizes().spec_bins(),
            all_in_unit(bins@),
    {
        proof {
            use_type_invariant(self);
        }
        &self.smoothed
    }

    /// The smoothed magnitude of the bin at `index`, for a bin of the
    /// spectrum.
    pub fn bin(&self, index: usize) -> (value: Option<u32>)
        ensures
            index < self.spec_bins().len() <==> value is Some,
            value matches Some(v) ==> v == self.spec_bins()[index as int] && v <= UNIT,
    {
        proof {
            use_type_invariant(self);
        }
        if index < self.smoothed.len() {
            Some(self.smoothed[index])
        } else {
            None
        }
    }

    /// The bass energy, between zero and one.
    pub fn bass_energy(&self) -> (energy: u32)
        ensures
            energy == self.spec_bass_energy(),
            energy <= UNIT,
    {
        proof {
            use_type_invariant(self);
        }
        self.bass_energy
    }

    /// Takes in the magnitudes of one frame: each bin's normalized magnitude
    /// is scaled by intensity, gain and the fixed boost, held at one, and
    /// smoothed into the bin's running value; the bass energy is then the
    /// mean of the lowest bins times the boost, held at one. The magnitudes
    /// must be one for each bin; otherwise nothing changes and the result
    /// is false.
    pub fn absorb(
        &mut self,
        magnitudes: &Vec<u32>,
        intensity: u32,
        gain: u32,
        smoothing: u32,
        bass_boost: u32,
    ) -> (taken: bool)
        ensures
            taken == (magnitudes@.len() == old(self).spec_bins().len()),
            final(self).spec_sizes() == old(self).spec_sizes(),
            taken ==> final(self).spec_bins() == spec_absorbed(
                old(self).spec_bins(),
                magnitudes@,
                intensity,
                gain,
                smoothing,
            ),
            taken ==> final(self).spec_bass_energy() == spec_bass(
                final(self).spec_bins(),
                old(self).spec_sizes().spec_bass_bins(),
                bass_boost,
            ),
            !taken ==> final(self).spec_bins() == old(self).spec_bins(),
            !taken ==> final(self).spec_bass_energy() == old(self).spec_bass_energy(),
    {
        proof {
            use_type_invariant(&*self);
        }
        let bins: usize = self.smoothed.len();
        if magnitudes.len() != bins {
            return false;
        }
        let ghost before = self.smoothed@;
        let mut next: Vec<u32> = Vec::new();
        let mut i: usize = 0;
        while i < bins
            invariant
                i <= bins,
                bins == self.smoothed@.len(),
                bins == magnitudes@.len(),
                self.smoothed@ == before,
                all_in_unit(before),
                next@.len() == i,
                forall|j: int|
                    0 <= j < i ==> next@[j] == spec_smoothed(
                        before[j],
                        spec_scaled(magnitudes@[j], intensity, gain),
                        smoothing,
                    ) && next@[j] <= UNIT,
            decreases bins - i,
        {
            let new: u32 = scaled(magnitudes[i], intensity, gain);
            next.push(smoothed(self.smoothed[i], new, smoothing));
            i += 1;
        }
        assert(next@ =~= spec_absorbed(before, magnitudes@, intensity, gain, smoothing));
        let bass_bins: usize = self.sizes.bass_bins();
        let mut sum: u128 = 0;
        let mut k: usize = 0;
        assert(next@.take(0) =~= Seq::<u32>::empty());
        while k < bass_bins
            invariant
                k <= bass_bins <= bins,
                next@.len() == bins,
                all_in_unit(next@),
                sum == sum_of(next@.take(k as int)),
                sum <= k * UNIT,
            decreases bass_bins - k,
        {
            assert(next@.take(k as int + 1).drop_last() =~= next@.take(k as int));
            assert((k + 1) * UNIT == k * UNIT + UNIT) by (nonlinear_arith);
            assert(k * UNIT <= 0xffff_ffff_ffff_ffff * 1000000000) by (nonlinear_arith)
                requires
                    k <= 0xffff_ffff_ffff_ffff,
                    UNIT == 1000000000,
            ;
            sum = sum + next[k] as u128;
            k += 1;
        }
        let energy: u32 = if bass_bins == 0 {
            0
        } else {
            let whole: u128 = sum / (bass_bins as u128);
            assert(whole <= UNIT) by (nonlinear_arith)
                requires
                    whole == sum / (bass_bins as u128),
                    sum <= bass_bins * UNIT,
                    bass_bins > 0,
            ;
            let mean: u64 = whole as u64;
            assert(mean * bass_boost <= UNIT * 0xffff_ffff) by (nonlinear_arith)
                requires
                    mean <= UNIT,
                    bass_boost <= 0xffff_ffff,
            ;
            let boosted: u64 = mean * (bass_boost as u64) / 1000;
            if boosted >= UNIT as u64 {
                UNIT
            } else {
                boosted as u32
            }
        };
        self.bass_energy = energy;
        self.smoothed = next;
        true
    }
}

} // verus!
