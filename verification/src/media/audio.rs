//! Audio frame generation and processing.
//!
//! The generator's tone is synthesized in floating point by the application
//! layer; this module keeps the generator's counters and frame layout and the
//! processor's bookkeeping.

use vstd::prelude::*;
use crate::clock::unix_time_ms;
use crate::media::error::MediaError;
use crate::protocol::{AudioConfig, AudioFrame, SampleFormat};

verus! {

/// Bytes per sample of each format (unknown formats count as 16-bit).
pub open spec fn sample_size(sf: SampleFormat) -> int {
    match sf {
        SampleFormat::U8 => 1,
        SampleFormat::S16 => 2,
        SampleFormat::S32 => 4,
        SampleFormat::F32 => 4,
        _ => 2,
    }
}

/// Bytes per sample of `sf`.
pub fn sample_size_of(sf: SampleFormat) -> (r: u32)
    ensures
        r == sample_size(sf),
{
    match sf {
        SampleFormat::U8 => 1,
        SampleFormat::S16 => 2,
        SampleFormat::S32 => 4,
        SampleFormat::F32 => 4,
        _ => 2,
    }
}

/// A frame's bytes are its samples times the bytes a sample of its format
/// takes, as the format's name says: one for 8-bit `U8`, two for 16-bit
/// `S16`, four for 32-bit `S32` and `F32` (and two for a format not known).
/// Stated for every number of samples.
pub proof fn lemma_bytes_per_sample(sf: SampleFormat, samples: int)
    ensures
        sf == SampleFormat::U8 ==> samples * sample_size(sf) == samples,
        sf == SampleFormat::S16 ==> samples * sample_size(sf) == 2 * samples,
        sf == SampleFormat::S32 ==> samples * sample_size(sf) == 4 * samples,
        sf == SampleFormat::F32 ==> samples * sample_size(sf) == 4 * samples,
        sf == SampleFormat::Unknown ==> samples * sample_size(sf) == 2 * samples,
{
}

/// A run of `len` bytes holds as many samples as the format's sample size
/// divides into it: every byte is a sample in `U8`, every two bytes in
/// `S16`, every four in `S32` and `F32`.
pub proof fn lemma_samples_in_bytes(sf: SampleFormat, len: nat)
    ensures
        sf == SampleFormat::U8 ==> len as int / sample_size(sf) == len,
        sf == SampleFormat::S16 ==> len as int / sample_size(sf) == len as int / 2,
        sf == SampleFormat::S32 ==> len as int / sample_size(sf) == len as int / 4,
        sf == SampleFormat::F32 ==> len as int / sample_size(sf) == len as int / 4,
{
}

/// Generates test audio frames for screen mirroring.
#[derive(Debug, Clone)]
pub struct AudioFrameGenerator {
    sample_rate: u32,
    channels: u32,
    sample_format: SampleFormat,
    frame_counter: u64,
    sample_counter: u64,
}

impl AudioFrameGenerator {
    pub closed spec fn spec_sample_rate(&self) -> u32 {
        self.sample_rate
    }

    pub closed spec fn spec_channels(&self) -> u32 {
        self.channels
    }

    pub closed spec fn spec_sample_format(&self) -> SampleFormat {
        self.sample_format
    }

    /// How many frames this generator has produced.
    pub closed spec fn frames_generated(&self) -> u64 {
        self.frame_counter
    }

    /// How many samples (over all channels) this generator has produced.
    pub closed spec fn samples_generated(&self) -> u64 {
        self.sample_counter
    }

    /// The number of bytes of a frame with `samples_per_channel` samples per channel.
    pub open spec fn spec_frame_len(&self, samples_per_channel: u32) -> int {
        samples_per_channel * self.spec_channels() * sample_size(self.spec_sample_format())
    }

    pub fn new(sample_rate: u32, channels: u32, sample_format: SampleFormat) -> (r: Self)
        ensures
            r.spec_sample_rate() == sample_rate,
            r.spec_channels() == channels,
            r.spec_sample_format() == sample_format,
            r.frames_generated() == 0,
            r.samples_generated() == 0,
    {
        AudioFrameGenerator { sample_rate, channels, sample_format, frame_counter: 0, sample_counter: 0 }
    }

    pub fn sample_rate(&self) -> (r: u32)
        ensures
            r == self.spec_sample_rate(),
    {
        self.sample_rate
    }

    pub fn channels(&self) -> (r: u32)
        ensures
            r == self.spec_channels(),
    {
        self.channels
    }

    pub fn sample_format(&self) -> (r: SampleFormat)
        ensures
            r == self.spec_sample_format(),
    {
        self.sample_format
    }

    /// How many frames this generator has produced.
    pub fn frame_counter(&self) -> (r: u64)
        ensures
            r == self.frames_generated(),
    {
        self.frame_counter
    }

    /// The index of the next sample to be generated.
    pub fn sample_counter(&self) -> (r: u64)
        ensures
            r == self.samples_generated(),
    {
        self.sample_counter
    }

    /// The number of bytes of a frame with `samples_per_channel` samples per
    /// channel; the sizes are computed in 32 bits.
    pub fn frame_len(&self, samples_per_channel: u32) -> (r: usize)
        requires
            samples_per_channel * self.spec_channels() <= u32::MAX,
            self.spec_frame_len(samples_per_channel) <= u32::MAX,
        ensures
            r == self.spec_frame_len(samples_per_channel),
            self.spec_sample_format() == SampleFormat::U8 ==> r == samples_per_channel * self.spec_channels(),
            self.spec_sample_format() == SampleFormat::S16 ==> r == 2 * (samples_per_channel * self.spec_channels()),
            self.spec_sample_format() == SampleFormat::S32 || self.spec_sample_format() == SampleFormat::F32
                ==> r == 4 * (samples_per_channel * self.spec_channels()),
    {
        proof {
            lemma_bytes_per_sample(self.sample_format, samples_per_channel * self.channels);
            assert(self.spec_frame_len(samples_per_channel) == (samples_per_channel * self.channels) * sample_size(
                self.sample_format,
            )) by (nonlinear_arith);
        }
        let total_samples = samples_per_channel * self.channels;
        (total_samples * sample_size_of(self.sample_format)) as usize
    }

    /// Completes the next frame from its sample bytes: the frame number and
    /// sample counter advance, and the frame carries the generator's format.
    pub fn assemble_frame(&mut self, samples_per_channel: u32, data: Vec<u8>) -> (r: Result<
        AudioFrame,
        MediaError,
    >)
        requires
            samples_per_channel * old(self).spec_channels() <= u32::MAX,
            old(self).spec_frame_len(samples_per_channel) <= u32::MAX,
            data@.len() == old(self).spec_frame_len(samples_per_channel),
            old(self).frames_generated() < u64::MAX,
            old(self).samples_generated() + samples_per_channel * old(self).spec_channels()
                <= u64::MAX,
        ensures
            final(self).spec_sample_rate() == old(self).spec_sample_rate(),
            final(self).spec_channels() == old(self).spec_channels(),
            final(self).spec_sample_format() == old(self).spec_sample_format(),
            final(self).frames_generated() == old(self).frames_generated() + 1,
            final(self).samples_generated() == old(self).samples_generated() + samples_per_channel
                * old(self).spec_channels(),
            r matches Ok(f) && f.sequence_id == final(self).frames_generated() && f.sample_rate
                == old(self).spec_sample_rate() && f.channels == old(self).spec_channels()
                && f.sample_format == old(self).spec_sample_format() && f.data@ == data@,
    {
        let total_samples = samples_per_channel * self.channels;
        self.frame_counter = self.frame_counter + 1;
        self.sample_counter = self.sample_counter + total_samples as u64;
        Ok(AudioFrame {
            sequence_id: self.frame_counter,
            timestamp_ms: unix_time_ms(),
            sample_rate: self.sample_rate,
            channels: self.channels,
            sample_format: self.sample_format,
            data,
        })
    }
}

/// Processes incoming and outgoing audio frames.
#[derive(Debug, Clone)]
pub struct AudioProcessor {
    config: Option<AudioConfig>,
    frame_count: u64,
    total_samples: u64,
}

impl AudioProcessor {
    pub closed spec fn spec_config(&self) -> Option<AudioConfig> {
        self.config
    }

    pub closed spec fn spec_frame_count(&self) -> u64 {
        self.frame_count
    }

    pub closed spec fn spec_total_samples(&self) -> u64 {
        self.total_samples
    }

    pub fn new() -> (r: Self)
        ensures
            r.spec_config() is None,
            r.spec_frame_count() == 0,
            r.spec_total_samples() == 0,
    {
        AudioProcessor { config: None, frame_count: 0, total_samples: 0 }
    }

    /// Accepts a configuration with a non-zero sample rate and channel count.
    pub fn configure(&mut self, config: AudioConfig) -> (r: Result<(), MediaError>)
        ensures
            r is Ok <==> config.sample_rate != 0 && config.channels != 0,
            r matches Err(e) ==> e is InvalidConfig,
            r is Ok ==> final(self).spec_config() == Some(config),
            r is Err ==> final(self).spec_config() == old(self).spec_config(),
            final(self).spec_frame_count() == old(self).spec_frame_count(),
            final(self).spec_total_samples() == old(self).spec_total_samples(),
    {
        if config.sample_rate == 0 || config.channels == 0 {
            return Err(
                MediaError::InvalidConfig("Sample rate and channels must be greater than 0".to_string()),
            );
        }
        self.config = Some(config);
        Ok(())
    }

    pub fn is_configured(&self) -> (r: bool)
        ensures
            r == self.spec_config() is Some,
    {
        self.config.is_some()
    }

    pub fn config(&self) -> (r: Option<&AudioConfig>)
        ensures
            r matches Some(c) ==> self.spec_config() == Some(*c),
            r is None <==> self.spec_config() is None,
    {
        self.config.as_ref()
    }

    /// Counts an incoming frame and its samples (bytes divided by the sample
    /// size); fails before configuration.
    pub fn process_incoming_frame(&mut self, frame: &AudioFrame) -> (r: Result<(), MediaError>)
        requires
            old(self).spec_frame_count() < u64::MAX,
            old(self).spec_total_samples() + (frame.data@.len() as int) / sample_size(frame.sample_format)
                <= u64::MAX,
        ensures
            r is Ok <==> old(self).spec_config() is Some,
            r matches Err(e) ==> e is NotInitialized,
            final(self).spec_config() == old(self).spec_config(),
            r is Ok ==> final(self).spec_frame_count() == old(self).spec_frame_count() + 1
                && final(self).spec_total_samples() == old(self).spec_total_samples()
                + (frame.data@.len() as int) / sample_size(frame.sample_format),
            r is Err ==> final(self).spec_frame_count() == old(self).spec_frame_count()
                && final(self).spec_total_samples() == old(self).spec_total_samples(),
            r is Ok && frame.sample_format == SampleFormat::U8 ==> final(self).spec_total_samples()
                == old(self).spec_total_samples() + frame.data@.len(),
            r is Ok && frame.sample_format == SampleFormat::S16 ==> final(self).spec_total_samples()
                == old(self).spec_total_samples() + frame.data@.len() / 2,
            r is Ok && (frame.sample_format == SampleFormat::S32 || frame.sample_format == SampleFormat::F32)
                ==> final(self).spec_total_samples() == old(self).spec_total_samples() + frame.data@.len() / 4,
    {
        proof {
            lemma_samples_in_bytes(frame.sample_format, frame.data@.len());
        }
        if self.config.is_none() {
            return Err(MediaError::NotInitialized);
        }
        self.frame_count = self.frame_count + 1;
        let sample_size = sample_size_of(frame.sample_format) as u64;
        let samples = frame.data.len() as u64 / sample_size;
        self.total_samples = self.total_samples + samples;
        Ok(())
    }

    /// Counts an outgoing frame and stamps it with the current time when it
    /// has no timestamp; fails before configuration.
    pub fn process_outgoing_frame(&mut self, frame: &mut AudioFrame) -> (r: Result<(), MediaError>)
        requires
            old(self).spec_frame_count() < u64::MAX,
        ensures
            r is Ok <==> old(self).spec_config() is Some,
            r matches Err(e) ==> e is NotInitialized,
            final(self).spec_config() == old(self).spec_config(),
            final(self).spec_total_samples() == old(self).spec_total_samples(),
            final(self).spec_frame_count() == old(self).spec_frame_count() + if r is Ok {
                1int
            } else {
                0int
            },
            final(frame).sequence_id == old(frame).sequence_id,
            final(frame).sample_rate == old(frame).sample_rate,
            final(frame).channels == old(frame).channels,
            final(frame).sample_format == old(frame).sample_format,
            final(frame).data == old(frame).data,
            (r is Err || old(frame).timestamp_ms != 0) ==> final(frame).timestamp_ms == old(frame).timestamp_ms,
    {
        if self.config.is_none() {
            return Err(MediaError::NotInitialized);
        }
        if frame.timestamp_ms == 0 {
            frame.timestamp_ms = unix_time_ms();
        }
        self.frame_count = self.frame_count + 1;
        Ok(())
    }

    pub fn frame_count(&self) -> (r: u64)
        ensures
            r == self.spec_frame_count(),
    {
        self.frame_count
    }

    pub fn total_samples(&self) -> (r: u64)
        ensures
            r == self.spec_total_samples(),
    {
        self.total_samples
    }
}

impl Default for AudioProcessor {
    fn default() -> (r: Self)
        ensures
            r.spec_config() is None,
            r.spec_frame_count() == 0,
            r.spec_total_samples() == 0,
    {
        Self::new()
    }
}

} // verus!
