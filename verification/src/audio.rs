use crate::error::{AppError, AppErrorView};
use vstd::prelude::*;
use vstd::string::*;

verus! {

/// The sample rate the capture stream asks for when the device offers it.
pub const PREFERRED_SAMPLE_RATE: u32 = 44100;

/// How a device encodes one sample.
#[derive(Clone, Copy, Debug, PartialEq, Eq, Structural)]
pub enum SampleFormat {
    I8,
    I16,
    I32,
    I64,
    U8,
    U16,
    U32,
    U64,
    F32,
    F64,
    /// An encoding this library has no name for.
    Unknown,
}

impl SampleFormat {
    /// The encodings the capture path converts: normalized 32-bit float and
    /// signed or unsigned fixed point of 8 or 16 bits.
    pub open spec fn spec_is_supported(self) -> bool {
        self is F32 || self is I8 || self is U8 || self is I16 || self is U16
    }

    #[verifier::when_used_as_spec(spec_is_supported)]
    pub fn is_supported(self) -> (supported: bool)
        ensures
            supported == self.spec_is_supported(),
    {
        match self {
            SampleFormat::F32
            | SampleFormat::I8
            | SampleFormat::U8
            | SampleFormat::I16
            | SampleFormat::U16 => true,
            _ => false,
        }
    }

    /// The encoding's name as it appears in messages.
    pub open spec fn spec_name(self) -> Seq<char> {
        match self {
            SampleFormat::I8 => "I8"@,
            SampleFormat::I16 => "I16"@,
            SampleFormat::I32 => "I32"@,
            SampleFormat::I64 => "I64"@,
            SampleFormat::U8 => "U8"@,
            SampleFormat::U16 => "U16"@,
            SampleFormat::U32 => "U32"@,
            SampleFormat::U64 => "U64"@,
            SampleFormat::F32 => "F32"@,
            SampleFormat::F64 => "F64"@,
            SampleFormat::Unknown => "Unknown"@,
        }
    }

    pub fn name(self) -> (name: &'static str)
        ensures
            name@ == self.spec_name(),
    {
        match self {
            SampleFormat::I8 => "I8",
            SampleFormat::I16 => "I16",
            SampleFormat::I32 => "I32",
            SampleFormat::I64 => "I64",
            SampleFormat::U8 => "U8",
            SampleFormat::U16 => "U16",
            SampleFormat::U32 => "U32",
            SampleFormat::U64 => "U64",
            SampleFormat::F32 => "F32",
            SampleFormat::F64 => "F64",
            SampleFormat::Unknown => "Unknown",
        }
    }
}

/// One configuration range that an input device offers.
#[derive(Clone, Copy, Debug, PartialEq, Eq, Structural)]
pub struct SupportedInputConfig {
    pub channels: u16,
    pub min_sample_rate: u32,
    pub max_sample_rate: u32,
    pub sample_format: SampleFormat,
}

/// The configuration the capture stream is opened with.
#[derive(Clone, Copy, Debug, PartialEq, Eq, Structural)]
pub struct InputConfig {
    pub channels: u16,
    pub sample_rate: u32,
    pub sample_format: SampleFormat,
}

impl SupportedInputConfig {
    /// Only mono and stereo ranges are considered.
    pub open spec fn spec_is_suitable(self) -> bool {
        self.channels == 1 || self.channels == 2
    }

    #[verifier::when_used_as_spec(spec_is_suitable)]
    pub fn is_suitable(self) -> (suitable: bool)
        ensures
            suitable == self.spec_is_suitable(),
    {
        self.channels == 1 || self.channels == 2
    }

    /// The rate asked of this range: 44.1 kHz where the range holds it, else
    /// the range's lowest rate.
    pub open spec fn spec_negotiated(self) -> InputConfig {
        InputConfig {
            channels: self.channels,
            sample_rate: if self.min_sample_rate <= PREFERRED_SAMPLE_RATE
                && PREFERRED_SAMPLE_RATE <= self.max_sample_rate {
                PREFERRED_SAMPLE_RATE
            } else {
                self.min_sample_rate
            },
            sample_format: self.sample_format,
        }
    }

    #[verifier::when_used_as_spec(spec_negotiated)]
    pub fn negotiated(self) -> (config: InputConfig)
        ensures
            config == self.spec_negotiated(),
    {
        let sample_rate: u32 = if self.min_sample_rate <= PREFERRED_SAMPLE_RATE
            && PREFERRED_SAMPLE_RATE <= self.max_sample_rate {
            PREFERRED_SAMPLE_RATE
        } else {
            self.min_sample_rate
        };
        InputConfig { channels: self.channels, sample_rate, sample_format: self.sample_format }
    }
}

/// `index` is the first suitable range of `configs`.
pub open spec fn is_first_suitable(configs: Seq<SupportedInputConfig>, index: int) -> bool {
    &&& 0 <= index < configs.len()
    &&& configs[index].is_suitable()
    &&& forall|j: int| 0 <= j < index ==> !(#[trigger] configs[j]).is_suitable()
}

/// No range of `configs` is suitable.
pub open spec fn none_suitable(configs: Seq<SupportedInputConfig>) -> bool {
    forall|j: int| 0 <= j < configs.len() ==> !(#[trigger] configs[j]).is_suitable()
}

/// The message of the error for a device without a mono or stereo range.
pub open spec fn no_config_message() -> Seq<char> {
    "No suitable input config found for device"@
}

/// The message of the error for an encoding the capture path cannot convert.
pub open spec fn unsupported_format_message(format: SampleFormat) -> Seq<char> {
    "Unsupported sample format: "@ + format.spec_name()
}

/// Picks the configuration for the capture stream from what the device
/// offers, in the device's order: the first mono or stereo range, at 44.1 kHz
/// where that range allows it. A device without such a range, or whose first
/// such range uses an encoding that cannot be converted, is refused.
pub fn choose_input_config(configs: &Vec<SupportedInputConfig>) -> (chosen: Result<
    InputConfig,
    AppError,
>)
    ensures
        match chosen {
            Ok(config) => exists|i: int|
                is_first_suitable(configs@, i) && configs@[i].sample_format.is_supported()
                    && config == configs@[i].negotiated(),
            Err(e) => {
                ||| none_suitable(configs@) && e@ == AppErrorView::Audio(no_config_message())
                ||| exists|i: int|
                    is_first_suitable(configs@, i) && !configs@[i].sample_format.is_supported()
                        && e@ == AppErrorView::Audio(
                        unsupported_format_message(configs@[i].sample_format),
                    )
            },
        },
{
    let mut i: usize = 0;
    while i < configs.len()
        invariant
            i <= configs.len(),
            forall|j: int| 0 <= j < i ==> !(#[trigger] configs@[j]).is_suitable(),
        decreases configs.len() - i,
    {
        let range = configs[i];
        if range.is_suitable() {
            assert(is_first_suitable(configs@, i as int));
            if range.sample_format.is_supported() {
                return Ok(range.negotiated());
            }
            let message = String::from_str("Unsupported sample format: ").concat(
                range.sample_format.name(),
            );
            return Err(AppError::Audio(message));
        }
        i += 1;
    }
    Err(AppError::Audio(String::from_str("No suitable input config found for device")))
}

/// A fixed-point sample: an integer level around zero, measured against the
/// encoding's full scale.
pub trait PcmSample: Copy {
    /// The sample as a signed level around zero.
    spec fn level(&self) -> int;

    /// The level that stands for an amplitude of one.
    spec fn full_scale() -> int;

    fn centered(&self) -> (level: i32)
        ensures
            level == self.level(),
            -Self::full_scale() <= level < Self::full_scale(),
    ;

    fn scale() -> (full_scale: u32)
        ensures
            full_scale == Self::full_scale(),
            0 < full_scale <= 32768,
    ;
}

impl PcmSample for i8 {
    open spec fn level(&self) -> int {
        *self as int
    }

    open spec fn full_scale() -> int {
        128
    }

    fn centered(&self) -> (level: i32) {
        *self as i32
    }

    fn scale() -> (full_scale: u32) {
        128
    }
}

impl PcmSample for u8 {
    open spec fn level(&self) -> int {
        *self as int - 128
    }

    open spec fn full_scale() -> int {
        128
    }

    fn centered(&self) -> (level: i32) {
        *self as i32 - 128
    }

    fn scale() -> (full_scale: u32) {
        128
    }
}

impl PcmSample for i16 {
    open spec fn level(&self) -> int {
        *self as int
    }

    open spec fn full_scale() -> int {
        32768
    }

    fn centered(&self) -> (level: i32) {
        *self as i32
    }

    fn scale() -> (full_scale: u32) {
        32768
    }
}

impl PcmSample for u16 {
    open spec fn level(&self) -> int {
        *self as int - 32768
    }

    open spec fn full_scale() -> int {
        32768
    }

    fn centered(&self) -> (level: i32) {
        *self as i32 - 32768
    }

    fn scale() -> (full_scale: u32) {
        32768
    }
}

/// The levels of a buffer of samples, in order.
pub open spec fn levels<S: PcmSample>(data: Seq<S>) -> Seq<int> {
    Seq::new(data.len(), |i: int| data[i].level())
}

/// How many frames of an interleaved buffer of `data_len` samples go into a
/// snapshot of `capacity` slots: every complete frame that fits, and none
/// where there are no channels.
pub open spec fn spec_frames_to_mix(data_len: nat, channels: nat, capacity: nat) -> nat {
    if channels == 0 {
        0
    } else if data_len / channels < capacity {
        data_len / channels
    } else {
        capacity
    }
}

/// The sum of the first `upto` channels of frame `frame`.
pub open spec fn channel_sum(levels: Seq<int>, channels: nat, frame: nat, upto: nat) -> int
    decreases upto,
{
    if upto == 0 {
        0
    } else {
        channel_sum(levels, channels, frame, (upto - 1) as nat) + levels[frame * channels + upto
            - 1]
    }
}

/// What slot `slot` of the snapshot holds after mixing: the sum over the
/// channels of its frame, or silence past the last mixed frame.
pub open spec fn mixed_slot(levels: Seq<int>, channels: nat, capacity: nat, slot: nat) -> int {
    if slot < spec_frames_to_mix(levels.len(), channels, capacity) {
        channel_sum(levels, channels, slot, channels)
    } else {
        0
    }
}

/// The number by which a slot's sum is divided to give its amplitude: the
/// full scale times the channel count, or the full scale alone where there
/// are no channels. It is never zero.
pub open spec fn spec_mix_divisor(full_scale: int, channels: nat) -> int {
    if channels == 0 {
        full_scale
    } else {
        full_scale * channels
    }
}

/// The number of frames that [`downmix`] writes; for a caller that mixes a
/// buffer of another encoding by the same rule.
pub fn frames_to_mix(data_len: usize, channels: u16, capacity: usize) -> (frames: usize)
    ensures
        frames == spec_frames_to_mix(data_len as nat, channels as nat, capacity as nat),
{
    if channels == 0 {
        0
    } else {
        let complete: usize = data_len / (channels as usize);
        if complete < capacity {
            complete
        } else {
            capacity
        }
    }
}

/// The divisor that turns the sums written by [`downmix`] into amplitudes.
pub fn mix_divisor<S: PcmSample>(channels: u16) -> (divisor: u32)
    ensures
        divisor == spec_mix_divisor(S::full_scale(), channels as nat),
        divisor > 0,
{
    let full_scale: u32 = S::scale();
    if channels == 0 {
        full_scale
    } else {
        assert(full_scale * channels <= 32768 * 65535) by (nonlinear_arith)
            requires
                0 < full_scale <= 32768,
                0 < channels <= 65535,
        ;
        assert(full_scale * channels > 0) by (nonlinear_arith)
            requires
                0 < full_scale,
                0 < channels,
        ;
        full_scale * (channels as u32)
    }
}

/// Mixes an interleaved buffer down to mono into the snapshot, in place.
/// Slot `i` of the snapshot receives the sum of the levels of frame `i` over
/// its channels; dividing it by [`mix_divisor`] gives the mean amplitude of
/// the frame in [-1, 1]. Frames beyond the snapshot are dropped, an
/// incomplete last frame is ignored, and slots beyond the last frame are
/// silenced. With no channels the whole snapshot is silence. Returns the
/// number of frames mixed.
pub fn downmix<S: PcmSample>(data: &[S], channels: u16, snapshot: &mut Vec<i32>) -> (frames: usize)
    ensures
        final(snapshot)@.len() == old(snapshot)@.len(),
        frames == spec_frames_to_mix(data@.len(), channels as nat, old(snapshot)@.len()),
        forall|i: int|
            0 <= i < final(snapshot)@.len() ==> #[trigger] final(snapshot)@[i] == mixed_slot(
                levels(data@),
                channels as nat,
                old(snapshot)@.len(),
                i as nat,
            ),
        forall|i: int|
            0 <= i < final(snapshot)@.len() ==> -spec_mix_divisor(
                S::full_scale(),
                channels as nat,
            ) <= #[trigger] final(snapshot)@[i] <= spec_mix_divisor(
                S::full_scale(),
                channels as nat,
            ),
{
    let capacity: usize = snapshot.len();
    let samples: usize = data.len();
    let frames: usize = frames_to_mix(samples, channels, capacity);
    let width: usize = channels as usize;
    let full_scale: u32 = S::scale();
    let ghost lv = levels(data@);
    let mut i: usize = 0;
    while i < frames
        invariant
            i <= frames <= capacity,
            capacity == snapshot@.len(),
            capacity == old(snapshot)@.len(),
            frames == spec_frames_to_mix(data@.len(), channels as nat, capacity as nat),
            width == channels,
            samples == data@.len(),
            lv == levels(data@),
            full_scale == S::full_scale(),
            0 < full_scale <= 32768,
            forall|k: int|
                0 <= k < i ==> #[trigger] snapshot@[k] == channel_sum(
                    lv,
                    channels as nat,
                    k as nat,
                    channels as nat,
                ),
            forall|k: int|
                0 <= k < i ==> -(full_scale * channels) <= #[trigger] snapshot@[k] <= full_scale
                    * channels,
        decreases frames - i,
    {
        assert(width > 0);
        assert(i * width + width <= data@.len()) by (nonlinear_arith)
            requires
                i < frames,
                width > 0,
                frames <= data@.len() / (width as nat),
        ;
        let base: usize = i * width;
        let mut sum: i32 = 0;
        let mut ch: usize = 0;
        while ch < width
            invariant
                ch <= width,
                width == channels,
                base == i * width,
                base + width <= data@.len(),
                samples == data@.len(),
                lv == levels(data@),
                full_scale == S::full_scale(),
                0 < full_scale <= 32768,
                sum == channel_sum(lv, channels as nat, i as nat, ch as nat),
                -(full_scale * ch) <= sum <= full_scale * ch,
            decreases width - ch,
        {
            let level: i32 = data[base + ch].centered();
            assert(lv[i * channels + (ch + 1) - 1] == level);
            assert(full_scale * (ch + 1) == full_scale * ch + full_scale) by (nonlinear_arith);
            assert(full_scale * (ch + 1) <= 32768 * 65535) by (nonlinear_arith)
                requires
                    0 < full_scale <= 32768,
                    ch + 1 <= 65535,
            ;
            sum = sum + level;
            ch += 1;
        }
        snapshot[i] = sum;
        i += 1;
    }
    let mut j: usize = frames;
    while j < capacity
        invariant
            frames <= j <= capacity,
            capacity == snapshot@.len(),
            full_scale == S::full_scale(),
            0 < full_scale <= 32768,
            forall|k: int|
                0 <= k < frames ==> #[trigger] snapshot@[k] == channel_sum(
                    lv,
                    channels as nat,
                    k as nat,
                    channels as nat,
                ),
            forall|k: int|
                0 <= k < frames ==> -(full_scale * channels) <= #[trigger] snapshot@[k]
                    <= full_scale * channels,
            forall|k: int| frames <= k < j ==> #[trigger] snapshot@[k] == 0,
        decreases capacity - j,
    {
        snapshot[j] = 0;
        j += 1;
    }
    assert(channels == 0 ==> frames == 0);
    assert(full_scale * channels >= 0) by (nonlinear_arith)
        requires
            full_scale > 0,
            channels >= 0,
    ;
    frames
}

/// The mean law of the mix: the amplitude of a mixed slot, its sum over the
/// divisor, is the arithmetic mean of the amplitudes of the frame's samples,
/// each of which is its level over the full scale. Stated without division:
/// sum times full scale times channels equals divisor times the sum of the
/// levels.
pub proof fn lemma_mixed_slot_is_mean(
    levels: Seq<int>,
    full_scale: int,
    channels: nat,
    capacity: nat,
    slot: nat,
)
    requires
        channels > 0,
        slot < levels.len() / channels,
        slot < capacity,
    ensures
        mixed_slot(levels, channels, capacity, slot) * (full_scale * channels) == spec_mix_divisor(
            full_scale,
            channels,
        ) * channel_sum(levels, channels, slot, channels),
        spec_frames_to_mix(levels.len(), channels, capacity) == if levels.len() / channels
            < capacity {
            levels.len() / channels
        } else {
            capacity
        },
{
    assert(mixed_slot(levels, channels, capacity, slot) == channel_sum(
        levels,
        channels,
        slot,
        channels,
    ));
    assert(mixed_slot(levels, channels, capacity, slot) * (full_scale * channels)
        == (full_scale * channels) * channel_sum(levels, channels, slot, channels))
        by (nonlinear_arith)
        requires
            mixed_slot(levels, channels, capacity, slot) == channel_sum(
                levels,
                channels,
                slot,
                channels,
            ),
    ;
}

/// With no channels every slot is silence, whatever the buffer holds.
pub proof fn lemma_no_channels_is_silence(levels: Seq<int>, capacity: nat, slot: nat)
    ensures
        mixed_slot(levels, 0, capacity, slot) == 0,
        spec_frames_to_mix(levels.len(), 0, capacity) == 0,
{
}

} // verus!
