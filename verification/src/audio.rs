//! Audio channel bookkeeping.
//!
//! The kernel reserves channels and plays buffers; these types keep what a
//! channel was reserved with, check buffers before they are played, and read
//! the kernel's replies.
use vstd::prelude::*;
use crate::error::{NativeError, native_result};
pub use crate::error::reply_error;

verus! {

/// Errors of audio output.
#[derive(Clone, Debug)]
pub enum AudioError {
    Native(NativeError),
    SampleBufferTooSmall,
}

impl From<NativeError> for AudioError {
    fn from(from: NativeError) -> (e: Self) {
        Self::Native(from)
    }
}

impl vstd::std_specs::convert::FromSpecImpl<NativeError> for AudioError {
    open spec fn obeys_from_spec() -> bool {
        true
    }

    open spec fn from_spec(v: NativeError) -> AudioError {
        AudioError::Native(v)
    }
}

/// One 16-bit PCM sample.
pub type Sample = i16;

/// The volume of a channel: one level, or a left and a right level.
#[derive(Clone, Copy, Debug, PartialEq, Eq, Structural)]
pub enum Volume {
    Mono(u32),
    Stereo(u32, u32),
}

impl Volume {
    /// The loudest volume.
    pub const VOLUME_MAX: u32 = 0x7fff;

    /// A single level: the level itself, or the mean of left and right
    /// (rounded down).
    pub fn mono(&self) -> (m: u32)
        requires
            *self matches Volume::Stereo(l, r) ==> l + r <= u32::MAX,
        ensures
            m == match *self {
                Volume::Mono(m) => m as int,
                Volume::Stereo(l, r) => (l + r) / 2,
            },
    {
        match *self {
            Volume::Mono(m) => m,
            Volume::Stereo(l, r) => (l + r) / 2,
        }
    }

    /// Left and right levels: a single level is used for both.
    pub fn stereo(&self) -> (s: (u32, u32))
        ensures
            s == match *self {
                Volume::Stereo(l, r) => (l, r),
                Volume::Mono(m) => (m, m),
            },
    {
        match *self {
            Volume::Stereo(l, r) => (l, r),
            Volume::Mono(m) => (m, m),
        }
    }
}

/// The fewest samples a channel plays at once.
pub const AUDIO_SAMPLE_MIN: u32 = 64;

/// The most samples a channel plays at once.
pub const AUDIO_SAMPLE_MAX: u32 = 65472;

proof fn lemma_align64(x: u32)
    by (bit_vector)
    ensures
        x & !63u32 == x - x % 64,
{
}

/// Rounds a sample count up to a multiple of 64.
pub fn align_sample_count(sample_count: u32) -> (n: u32)
    requires
        sample_count + 63 <= u32::MAX,
    ensures
        n % 64 == 0,
        sample_count <= n < sample_count + 64,
{
    let x = sample_count + 63;
    proof {
        lemma_align64(x);
    }
    x & !63u32
}

/// The sample layout of a channel.
#[derive(Clone, Copy, Debug, PartialEq, Eq, Structural)]
pub enum AudioFormat {
    Mono,
    Stereo,
}

/// Output sample rates.
#[derive(Clone, Copy, Debug, PartialEq, Eq, Structural)]
pub enum AudioOutputFrequency {
    Khz48,
    Khz44_1,
    Khz32,
    Khz24,
    Khz22_05,
    Khz16,
    Khz12,
    Khz11_025,
    Khz8,
}

impl AudioOutputFrequency {
    /// The rate in hertz.
    pub open spec fn raw(self) -> u32 {
        match self {
            AudioOutputFrequency::Khz48 => 48_000,
            AudioOutputFrequency::Khz44_1 => 44_100,
            AudioOutputFrequency::Khz32 => 32_000,
            AudioOutputFrequency::Khz24 => 24_000,
            AudioOutputFrequency::Khz22_05 => 22_050,
            AudioOutputFrequency::Khz16 => 16_000,
            AudioOutputFrequency::Khz12 => 12_000,
            AudioOutputFrequency::Khz11_025 => 11_025,
            AudioOutputFrequency::Khz8 => 8_000,
        }
    }

    /// The rate in hertz.
    pub fn value(self) -> (hz: u32)
        ensures
            hz == self.raw(),
    {
        match self {
            AudioOutputFrequency::Khz48 => 48_000,
            AudioOutputFrequency::Khz44_1 => 44_100,
            AudioOutputFrequency::Khz32 => 32_000,
            AudioOutputFrequency::Khz24 => 24_000,
            AudioOutputFrequency::Khz22_05 => 22_050,
            AudioOutputFrequency::Khz16 => 16_000,
            AudioOutputFrequency::Khz12 => 12_000,
            AudioOutputFrequency::Khz11_025 => 11_025,
            AudioOutputFrequency::Khz8 => 8_000,
        }
    }
}

/// The channel number that asks the kernel for the next free channel.
pub const AUDIO_NEXT_CHANNEL: i32 = -1;

/// A reserved channel of the regular audio output.
pub struct AudioChannel {
    id: u32,
    sample_count: u32,
    format: AudioFormat,
}

/// What an [`AudioChannel`] holds.
pub struct AudioChannelModel {
    pub id: u32,
    pub sample_count: u32,
    pub format: AudioFormat,
}

impl View for AudioChannel {
    type V = AudioChannelModel;

    closed spec fn view(&self) -> AudioChannelModel {
        AudioChannelModel { id: self.id, sample_count: self.sample_count, format: self.format }
    }
}

impl AudioChannel {
    /// The channel number to reserve: the given one.
    pub fn reserve_request(channel: u8) -> (c: i32)
        ensures
            c == channel,
    {
        channel as i32
    }

    /// The channel the kernel reserved for a request (`reply` is its answer:
    /// the channel id, or a negative error code).
    pub fn reserve(sample_count: u32, format: AudioFormat, reply: i32) -> (r: Result<Self, NativeError>)
        ensures
            reply < 0 ==> reply_error(r, reply),
            reply >= 0 ==> (r matches Ok(c) && c@ == (AudioChannelModel { id: reply as u32, sample_count, format })),
    {
        match native_result(reply) {
            Ok(id) => Ok(Self { id, sample_count, format }),
            Err(e) => Err(e),
        }
    }

    /// The channel the kernel reserved for a request of the next free
    /// channel.
    pub fn reserve_next(sample_count: u32, format: AudioFormat, reply: i32) -> (r: Result<Self, NativeError>)
        ensures
            reply < 0 ==> reply_error(r, reply),
            reply >= 0 ==> (r matches Ok(c) && c@ == (AudioChannelModel { id: reply as u32, sample_count, format })),
    {
        Self::reserve(sample_count, format, reply)
    }

    /// The channel id.
    pub fn id(&self) -> (id: u32)
        ensures
            id == self@.id,
    {
        self.id
    }

    /// Checks a buffer before it is played: `SampleBufferTooSmall` when it
    /// holds fewer samples than the channel plays at once.
    pub fn check_buffer(&self, buffer: &[Sample]) -> (r: Result<(), AudioError>)
        ensures
            r is Ok <==> buffer@.len() >= self@.sample_count,
            r is Err ==> r matches Err(AudioError::SampleBufferTooSmall),
    {
        if buffer.len() < self.sample_count() as usize {
            return Err(AudioError::SampleBufferTooSmall);
        }
        Ok(())
    }

    /// The volume argument of playing `buffer` on the channel (a single
    /// level), once the buffer is checked.
    pub fn output(&self, volume: &Volume, buffer: &[Sample]) -> (r: Result<i32, AudioError>)
        requires
            *volume matches Volume::Stereo(l, r) ==> l + r <= u32::MAX,
        ensures
            buffer@.len() < self@.sample_count ==> r matches Err(AudioError::SampleBufferTooSmall),
            buffer@.len() >= self@.sample_count ==> r == Ok::<i32, AudioError>(
                (match *volume {
                    Volume::Mono(m) => m as int,
                    Volume::Stereo(l, r) => (l + r) / 2,
                }) as i32,
            ),
    {
        match self.check_buffer(buffer) {
            Ok(()) => Ok(#[verifier::truncate] (volume.mono() as i32)),
            Err(e) => Err(e),
        }
    }

    /// The two level arguments of playing `buffer` panned, once the buffer is
    /// checked: the right level goes first, then the left one.
    pub fn output_stereo(&self, volume: &Volume, buffer: &[Sample]) -> (r: Result<(i32, i32), AudioError>)
        ensures
            buffer@.len() < self@.sample_count ==> r matches Err(AudioError::SampleBufferTooSmall),
            buffer@.len() >= self@.sample_count ==> r == Ok::<(i32, i32), AudioError>(
                match *volume {
                    Volume::Stereo(l, r) => (r as i32, l as i32),
                    Volume::Mono(m) => (m as i32, m as i32),
                },
            ),
    {
        let (l, r) = volume.stereo();
        match self.check_buffer(buffer) {
            Ok(()) => Ok((#[verifier::truncate] (r as i32), #[verifier::truncate] (l as i32))),
            Err(e) => Err(e),
        }
    }

    /// Records a new sample count once the kernel accepted it (`reply`).
    pub fn set_sample_count(&mut self, sample_count: u32, reply: i32) -> (r: Result<(), NativeError>)
        ensures
            reply < 0 ==> reply_error(r, reply) && final(self)@ == old(self)@,
            reply >= 0 ==> r is Ok && final(self)@ == (AudioChannelModel { sample_count, ..old(self)@ }),
    {
        match native_result(reply) {
            Ok(_) => {
                self.sample_count = sample_count;
                Ok(())
            },
            Err(e) => Err(e),
        }
    }

    /// The samples played at once.
    pub fn sample_count(&self) -> (n: u32)
        ensures
            n == self@.sample_count,
    {
        self.sample_count
    }

    /// The byte size of one buffer: two bytes per sample, twice for stereo.
    pub fn sample_buffer_size(&self) -> (n: usize)
        requires
            self@.sample_count * 4 <= usize::MAX,
        ensures
            n == self@.sample_count * 2 * (if self@.format == AudioFormat::Stereo { 2int } else { 1 }),
    {
        let mono_size = self.sample_count() as usize * 2;
        match self.format() {
            AudioFormat::Mono => mono_size,
            AudioFormat::Stereo => mono_size * 2,
        }
    }

    /// Records a new format once the kernel accepted it (`reply`).
    pub fn set_format(&mut self, format: AudioFormat, reply: i32) -> (r: Result<(), NativeError>)
        ensures
            reply < 0 ==> reply_error(r, reply) && final(self)@ == old(self)@,
            reply >= 0 ==> r is Ok && final(self)@ == (AudioChannelModel { format, ..old(self)@ }),
    {
        match native_result(reply) {
            Ok(_) => {
                self.format = format;
                Ok(())
            },
            Err(e) => Err(e),
        }
    }

    /// The sample layout.
    pub fn format(&self) -> (f: AudioFormat)
        ensures
            f == self@.format,
    {
        self.format
    }
}

/// A reserved channel of the sample-rate-converting output.
pub struct AudioSrcChannel {
    frequency: AudioOutputFrequency,
    sample_count: u32,
    channels: u8,
}

/// What an [`AudioSrcChannel`] holds.
pub struct AudioSrcChannelModel {
    pub frequency: AudioOutputFrequency,
    pub sample_count: u32,
    pub channels: u8,
}

impl View for AudioSrcChannel {
    type V = AudioSrcChannelModel;

    closed spec fn view(&self) -> AudioSrcChannelModel {
        AudioSrcChannelModel { frequency: self.frequency, sample_count: self.sample_count, channels: self.channels }
    }
}

impl AudioSrcChannel {
    /// The channel the kernel reserved (`reply` is its answer).
    pub fn reserve(sample_count: u32, frequency: AudioOutputFrequency, channels: u8, reply: i32) -> (r: Result<Self, NativeError>)
        ensures
            reply < 0 ==> reply_error(r, reply),
            reply >= 0 ==> (r matches Ok(c) && c@ == (AudioSrcChannelModel { frequency, sample_count, channels })),
    {
        match native_result(reply) {
            Ok(_) => Ok(Self { frequency, sample_count, channels }),
            Err(e) => Err(e),
        }
    }

    /// The number of interleaved channels.
    pub fn channels(&self) -> (n: u8)
        ensures
            n == self@.channels,
    {
        self.channels
    }

    /// The sample rate.
    pub fn frequency(&self) -> (f: AudioOutputFrequency)
        ensures
            f == self@.frequency,
    {
        self.frequency
    }

    /// The samples played at once.
    pub fn sample_count(&self) -> (n: u32)
        ensures
            n == self@.sample_count,
    {
        self.sample_count
    }

    /// The byte size of one buffer: two bytes per sample and channel.
    pub fn sample_buffer_size(&self) -> (n: usize)
        requires
            self@.sample_count * 2 <= usize::MAX,
            self@.sample_count * 2 * self@.channels <= usize::MAX,
        ensures
            n == self@.sample_count * 2 * self@.channels,
    {
        let mono_size = self.sample_count() as usize * 2;
        proof {
            assert(mono_size * (self.channels as usize) == self@.sample_count * 2 * self@.channels) by (nonlinear_arith)
                requires mono_size == self@.sample_count * 2;
        }
        mono_size * (self.channels() as usize)
    }
}

/// The channel of the second audio output (stereo, 44.1 kHz).
pub struct Audio2Channel {
    sample_count: u32,
}

impl View for Audio2Channel {
    /// The samples played at once.
    type V = u32;

    closed spec fn view(&self) -> u32 {
        self.sample_count
    }
}

impl Audio2Channel {
    /// The channel the kernel reserved (`reply` is its answer).
    pub fn reserve(sample_count: u32, reply: i32) -> (r: Result<Self, NativeError>)
        ensures
            reply < 0 ==> reply_error(r, reply),
            reply >= 0 ==> (r matches Ok(c) && c@ == sample_count),
    {
        match native_result(reply) {
            Ok(_) => Ok(Self { sample_count }),
            Err(e) => Err(e),
        }
    }

    /// Records a new sample count once the kernel accepted it (`reply`).
    pub fn set_sample_count(&mut self, sample_count: u32, reply: i32) -> (r: Result<(), NativeError>)
        ensures
            reply < 0 ==> reply_error(r, reply) && final(self)@ == old(self)@,
            reply >= 0 ==> r is Ok && final(self)@ == sample_count,
    {
        match native_result(reply) {
            Ok(_) => {
                self.sample_count = sample_count;
                Ok(())
            },
            Err(e) => Err(e),
        }
    }

    /// The samples played at once.
    pub fn sample_count(&self) -> (n: u32)
        ensures
            n == self@,
    {
        self.sample_count
    }

    /// The byte size of one buffer: two bytes per sample.
    pub fn sample_buffer_size(&self) -> (n: usize)
        requires
            self@ * 2 <= usize::MAX,
        ensures
            n == self@ * 2,
    {
        self.sample_count() as usize * 2
    }

    /// Checks a buffer before it is played: `SampleBufferTooSmall` when it
    /// holds fewer samples than the channel plays at once.
    pub fn check_buffer(&self, buffer: &[Sample]) -> (r: Result<(), AudioError>)
        ensures
            r is Ok <==> buffer@.len() >= self@,
            r is Err ==> r matches Err(AudioError::SampleBufferTooSmall),
    {
        if buffer.len() < self.sample_count() as usize {
            return Err(AudioError::SampleBufferTooSmall);
        }
        Ok(())
    }
}

/// The audio input.
pub struct AudioInput;

impl AudioInput {
    /// The input, once the kernel initialized it (`reply` is its answer).
    pub fn init(reply: i32) -> (r: Result<Self, NativeError>)
        ensures
            reply < 0 ==> reply_error(r, reply),
            reply >= 0 ==> r is Ok,
    {
        match native_result(reply) {
            Ok(_) => Ok(AudioInput),
            Err(e) => Err(e),
        }
    }
}

} // verus!
