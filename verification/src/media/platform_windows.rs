//! Windows screen capture, input injection and audio recording. This is the
//! portable behaviour: a 1920x1080 primary display, gradient frames in BGRA
//! order, counted input injection and a 48 kHz stereo ramp signal.

use vstd::prelude::*;
use crate::clock::unix_time_ms;
use crate::media::error::MediaError;
use crate::media::platform::{AudioRecorder, DisplayInfo, InputInjector, ScreenCapturer};
use crate::media::video::{gradient, gradient_bytes};
use crate::protocol::{AudioFrame, KeyEvent, PixelFormat, SampleFormat, TouchEvent, VideoFrame};

verus! {

/// Width of the primary display.
pub const PRIMARY_DISPLAY_WIDTH: u32 = 1920;

/// Height of the primary display.
pub const PRIMARY_DISPLAY_HEIGHT: u32 = 1080;

/// Windows screen capturer.
pub struct WindowsScreenCapturer {
    width: u32,
    height: u32,
    running: bool,
    frame_counter: u64,
}

impl WindowsScreenCapturer {
    pub closed spec fn spec_running(&self) -> bool {
        self.running
    }

    pub closed spec fn frames_captured(&self) -> u64 {
        self.frame_counter
    }

    pub closed spec fn spec_width(&self) -> u32 {
        self.width
    }

    pub closed spec fn spec_height(&self) -> u32 {
        self.height
    }

    /// A stopped capturer of the primary display.
    pub fn new() -> (r: Self)
        ensures
            !r.spec_running(),
            r.frames_captured() == 0,
            r.spec_width() == PRIMARY_DISPLAY_WIDTH,
            r.spec_height() == PRIMARY_DISPLAY_HEIGHT,
    {
        let (width, height) = Self::get_primary_display_size();
        WindowsScreenCapturer { width, height, running: false, frame_counter: 0 }
    }

    fn get_primary_display_size() -> (r: (u32, u32))
        ensures
            r == (PRIMARY_DISPLAY_WIDTH, PRIMARY_DISPLAY_HEIGHT),
    {
        (PRIMARY_DISPLAY_WIDTH, PRIMARY_DISPLAY_HEIGHT)
    }

    /// The screen contents: a gradient shifted by the number of frames
    /// captured so far.
    fn capture_gdi_frame(&self) -> (r: Result<Vec<u8>, MediaError>)
        requires
            self.spec_width() * self.spec_height() * 4 <= u32::MAX,
        ensures
            r matches Ok(d) && d@ == gradient(
                (self.spec_width() * self.spec_height() * 4) as nat,
                (self.frames_captured() % 256) as int,
            ),
    {
        let pixel_count = (self.width * self.height * 4) as usize;
        Ok(gradient_bytes(pixel_count, (self.frame_counter % 256) as u8))
    }

    pub fn width(&self) -> (r: u32)
        ensures
            r == self.spec_width(),
    {
        self.width
    }

    /// The primary display: the captured size, unit density, 60 Hz,
    /// unrotated.
    pub fn get_display_info(&self) -> (r: Result<DisplayInfo, MediaError>)
        ensures
            r == Ok::<DisplayInfo, MediaError>(DisplayInfo {
                width: self.spec_width(),
                height: self.spec_height(),
                density_bits: crate::media::input::F32_ONE_BITS,
                refresh_rate: 60,
                rotation: 0,
            }),
    {
        Ok(DisplayInfo {
            width: self.width,
            height: self.height,
            density_bits: crate::media::input::F32_ONE_BITS,
            refresh_rate: 60,
            rotation: 0,
        })
    }

    pub fn height(&self) -> (r: u32)
        ensures
            r == self.spec_height(),
    {
        self.height
    }
}

impl Default for WindowsScreenCapturer {
    fn default() -> (r: Self)
        ensures
            !r.spec_running(),
            r.frames_captured() == 0,
            r.spec_width() == PRIMARY_DISPLAY_WIDTH,
            r.spec_height() == PRIMARY_DISPLAY_HEIGHT,
    {
        Self::new()
    }
}

impl ScreenCapturer for WindowsScreenCapturer {
    open spec fn can_capture(&self) -> bool {
        self.frames_captured() < u64::MAX && self.spec_width() * self.spec_height() * 4
            <= u32::MAX
    }

    /// The next BGRA frame; fails while stopped.
    fn capture_frame(&mut self) -> (r: Result<VideoFrame, MediaError>)
        ensures
            r is Ok <==> old(self).spec_running(),
            r matches Err(e) ==> e is NotInitialized && *final(self) == *old(self),
            final(self).spec_running() == old(self).spec_running(),
            final(self).spec_width() == old(self).spec_width(),
            final(self).spec_height() == old(self).spec_height(),
            r matches Ok(f) ==> final(self).frames_captured() == old(self).frames_captured() + 1
                && f.sequence_id == final(self).frames_captured() && f.width == old(self).spec_width()
                && f.height == old(self).spec_height() && f.pixel_format == PixelFormat::Bgra8888
                && f.is_keyframe == (final(self).frames_captured() % 30 == 1) && f.data@ == gradient(
                (old(self).spec_width() * old(self).spec_height() * 4) as nat,
                (old(self).frames_captured() % 256) as int,
            ),
    {
        if !self.running {
            return Err(MediaError::NotInitialized);
        }
        let pixels = self.capture_gdi_frame()?;
        self.frame_counter = self.frame_counter + 1;
        Ok(VideoFrame {
            sequence_id: self.frame_counter,
            timestamp_ms: unix_time_ms(),
            width: self.width,
            height: self.height,
            pixel_format: PixelFormat::Bgra8888,
            is_keyframe: self.frame_counter % 30 == 1,
            data: pixels,
        })
    }

    fn is_running(&self) -> (r: bool)
        ensures
            r == self.spec_running(),
    {
        self.running
    }

    /// Starts capturing; the frame numbers start over.
    fn start(&mut self) -> (r: Result<(), MediaError>)
        ensures
            r is Ok,
            final(self).spec_running(),
            final(self).frames_captured() == 0,
            final(self).spec_width() == old(self).spec_width(),
            final(self).spec_height() == old(self).spec_height(),
    {
        self.running = true;
        self.frame_counter = 0;
        Ok(())
    }

    fn stop(&mut self) -> (r: Result<(), MediaError>)
        ensures
            r is Ok,
            !final(self).spec_running(),
            final(self).frames_captured() == old(self).frames_captured(),
            final(self).spec_width() == old(self).spec_width(),
            final(self).spec_height() == old(self).spec_height(),
    {
        self.running = false;
        Ok(())
    }
}

/// Windows input injector.
pub struct WindowsInputInjector {
    screen_width: u32,
    screen_height: u32,
    touch_count: usize,
    key_count: usize,
}

impl WindowsInputInjector {
    pub closed spec fn spec_touch_count(&self) -> usize {
        self.touch_count
    }

    pub closed spec fn spec_key_count(&self) -> usize {
        self.key_count
    }

    pub closed spec fn spec_screen_size(&self) -> (u32, u32) {
        (self.screen_width, self.screen_height)
    }

    pub fn new() -> (r: Self)
        ensures
            r.spec_screen_size() == (1920u32, 1080u32),
            r.spec_touch_count() == 0,
            r.spec_key_count() == 0,
    {
        WindowsInputInjector { screen_width: 1920, screen_height: 1080, touch_count: 0, key_count: 0 }
    }

    pub fn screen_size(&self) -> (r: (u32, u32))
        ensures
            r == self.spec_screen_size(),
    {
        (self.screen_width, self.screen_height)
    }

    pub fn touch_injection_count(&self) -> (r: usize)
        ensures
            r == self.spec_touch_count(),
    {
        self.touch_count
    }

    pub fn key_injection_count(&self) -> (r: usize)
        ensures
            r == self.spec_key_count(),
    {
        self.key_count
    }
}

impl Default for WindowsInputInjector {
    fn default() -> (r: Self)
        ensures
            r.spec_screen_size() == (1920u32, 1080u32),
            r.spec_touch_count() == 0,
            r.spec_key_count() == 0,
    {
        Self::new()
    }
}

impl InputInjector for WindowsInputInjector {
    open spec fn can_inject(&self) -> bool {
        self.spec_touch_count() < usize::MAX && self.spec_key_count() < usize::MAX
    }

    /// Counts the touch event.
    fn inject_touch(&mut self, event: &TouchEvent) -> (r: Result<(), MediaError>)
        ensures
            r is Ok,
            final(self).spec_touch_count() == old(self).spec_touch_count() + 1,
            final(self).spec_key_count() == old(self).spec_key_count(),
            final(self).spec_screen_size() == old(self).spec_screen_size(),
    {
        self.touch_count = self.touch_count + 1;
        Ok(())
    }

    /// Counts the key event.
    fn inject_key(&mut self, event: &KeyEvent) -> (r: Result<(), MediaError>)
        ensures
            r is Ok,
            final(self).spec_key_count() == old(self).spec_key_count() + 1,
            final(self).spec_touch_count() == old(self).spec_touch_count(),
            final(self).spec_screen_size() == old(self).spec_screen_size(),
    {
        self.key_count = self.key_count + 1;
        Ok(())
    }
}

/// The ramp that the recorder produces: sample `i` of frame `n` is the
/// 16-bit value `n + i` (mod 2^16), little-endian.
pub open spec fn ramp_samples(frame: u64, total: nat) -> Seq<u8> {
    Seq::new(
        2 * total,
        |k: int|
            if k % 2 == 0 {
                ((frame + k / 2) % 256) as u8
            } else {
                (((frame + k / 2) % 65536) / 256) as u8
            },
    )
}

/// The 16-bit sum of the frame number and the sample index, split into
/// bytes, is the ramp's pair of bytes.
proof fn lemma_ramp_bytes(frame: u64, i: int)
    requires
        i >= 0,
    ensures
        ({
            let v = vstd::wrapping::u16_specs::wrapping_add((frame % 65536) as u16, (i % 65536) as u16);
            &&& v % 256 == (frame + i) % 256
            &&& v / 256 == ((frame + i) % 65536) / 256
        }),
{
    let f = frame as int;
    vstd::arithmetic::div_mod::lemma_add_mod_noop(f, i, 65536);
    vstd::arithmetic::div_mod::lemma_mod_mod(f + i, 256, 256);
    let v = vstd::wrapping::u16_specs::wrapping_add((frame % 65536) as u16, (i % 65536) as u16);
    assert(v == (f + i) % 65536);
}

/// Windows audio recorder.
pub struct WindowsAudioRecorder {
    sample_rate: u32,
    channels: u32,
    buffer_size: u32,
    recording: bool,
    frame_counter: u64,
}

impl WindowsAudioRecorder {
    pub closed spec fn spec_recording(&self) -> bool {
        self.recording
    }

    pub closed spec fn frames_recorded(&self) -> u64 {
        self.frame_counter
    }

    pub closed spec fn spec_sample_rate(&self) -> u32 {
        self.sample_rate
    }

    pub closed spec fn spec_channels(&self) -> u32 {
        self.channels
    }

    pub closed spec fn spec_buffer_size(&self) -> u32 {
        self.buffer_size
    }

    /// A stopped 48 kHz stereo recorder with 2048-sample buffers.
    pub fn new() -> (r: Self)
        ensures
            !r.spec_recording(),
            r.frames_recorded() == 0,
            r.spec_sample_rate() == 48000,
            r.spec_channels() == 2,
            r.spec_buffer_size() == 2048,
    {
        WindowsAudioRecorder {
            sample_rate: 48000,
            channels: 2,
            buffer_size: 2048,
            recording: false,
            frame_counter: 0,
        }
    }

    pub fn sample_rate(&self) -> (r: u32)
        ensures
            r == self.spec_sample_rate(),
    {
        self.sample_rate
    }

    pub fn channels(&self) -> (r: u32)
        ensures
            r == self.spec_channels(),
    {
        self.channels
    }
}

impl Default for WindowsAudioRecorder {
    fn default() -> (r: Self)
        ensures
            !r.spec_recording(),
            r.frames_recorded() == 0,
            r.spec_sample_rate() == 48000,
            r.spec_channels() == 2,
            r.spec_buffer_size() == 2048,
    {
        Self::new()
    }
}

impl AudioRecorder for WindowsAudioRecorder {
    open spec fn can_record(&self) -> bool {
        &&& self.frames_recorded() < u64::MAX
        &&& self.spec_buffer_size() * self.spec_channels() <= u32::MAX
        &&& 2 * self.spec_buffer_size() * self.spec_channels() <= usize::MAX
    }

    /// The next frame of the ramp signal; fails while stopped.
    fn record_frame(&mut self) -> (r: Result<AudioFrame, MediaError>)
        ensures
            r is Ok <==> old(self).spec_recording(),
            r matches Err(e) ==> e is NotInitialized && *final(self) == *old(self),
            final(self).spec_recording() == old(self).spec_recording(),
            final(self).spec_sample_rate() == old(self).spec_sample_rate(),
            final(self).spec_channels() == old(self).spec_channels(),
            final(self).spec_buffer_size() == old(self).spec_buffer_size(),
            r matches Ok(f) ==> final(self).frames_recorded() == old(self).frames_recorded() + 1
                && f.sequence_id == final(self).frames_recorded() && f.sample_rate == old(self).spec_sample_rate() && f.channels == old(self).spec_channels() && f.sample_format
                == SampleFormat::S16 && f.data@ == ramp_samples(
                final(self).frames_recorded(),
                (old(self).spec_buffer_size() * old(self).spec_channels()) as nat,
            ),
    {
        if !self.recording {
            return Err(MediaError::NotInitialized);
        }
        self.frame_counter = self.frame_counter + 1;
        let total_samples = (self.buffer_size * self.channels) as usize;
        assert(2 * total_samples <= usize::MAX) by (nonlinear_arith)
            requires
                total_samples == self.buffer_size * self.channels,
                2 * self.buffer_size * self.channels <= usize::MAX,
        ;
        let base = (self.frame_counter % 65536) as u16;
        let ghost spec_data = ramp_samples(self.frame_counter, total_samples as nat);
        let mut data: Vec<u8> = Vec::new();
        let mut i: usize = 0;
        while i < total_samples
            invariant
                i <= total_samples,
                2 * total_samples <= usize::MAX,
                base == self.frame_counter % 65536,
                spec_data == ramp_samples(self.frame_counter, total_samples as nat),
                data@ == spec_data.take(2 * i),
            decreases total_samples - i,
        {
            let sample_val = base.wrapping_add((i % 65536) as u16);
            proof {
                lemma_ramp_bytes(self.frame_counter, i as int);
            }
            data.push((sample_val % 256) as u8);
            data.push((sample_val / 256) as u8);
            proof {
                assert(spec_data[2 * i as int] == (sample_val % 256) as u8);
                assert(spec_data[2 * i + 1] == (sample_val / 256) as u8);
            }
            i = i + 1;
            assert(data@ =~= spec_data.take(2 * i));
        }
        assert(data@ =~= spec_data);
        Ok(AudioFrame {
            sequence_id: self.frame_counter,
            timestamp_ms: unix_time_ms(),
            sample_rate: self.sample_rate,
            channels: self.channels,
            sample_format: SampleFormat::S16,
            data,
        })
    }

    fn is_recording(&self) -> (r: bool)
        ensures
            r == self.spec_recording(),
    {
        self.recording
    }

    /// Starts recording; the frame numbers start over.
    fn start(&mut self) -> (r: Result<(), MediaError>)
        ensures
            r is Ok,
            final(self).spec_recording(),
            final(self).frames_recorded() == 0,
            final(self).spec_sample_rate() == old(self).spec_sample_rate(),
            final(self).spec_channels() == old(self).spec_channels(),
            final(self).spec_buffer_size() == old(self).spec_buffer_size(),
    {
        self.recording = true;
        self.frame_counter = 0;
        Ok(())
    }

    fn stop(&mut self) -> (r: Result<(), MediaError>)
        ensures
            r is Ok,
            !final(self).spec_recording(),
            final(self).frames_recorded() == old(self).frames_recorded(),
            final(self).spec_sample_rate() == old(self).spec_sample_rate(),
            final(self).spec_channels() == old(self).spec_channels(),
            final(self).spec_buffer_size() == old(self).spec_buffer_size(),
    {
        self.recording = false;
        Ok(())
    }
}

} // verus!
