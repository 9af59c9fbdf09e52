//! Platform abstraction: screen capture, audio recording and input
//! injection, with mock implementations.

use vstd::prelude::*;
use vstd::string::StringSliceAdditionalSpecFns;
use std::sync::Arc;
use crate::clock::unix_time_ms;
use crate::bytes_util::str_eq;
use crate::media::error::MediaError;
use crate::media::video::{gradient, gradient_bytes};
use crate::protocol::{AudioFrame, KeyEvent, PixelFormat, SampleFormat, TouchEvent, VideoFrame};

verus! {

/// Platform type.
#[derive(Debug, Clone, Copy, PartialEq, Eq, Structural)]
pub enum PlatformType {
    Unknown,
    Android,
    Ios,
    Windows,
    Macos,
    Linux,
}

impl PlatformType {
    /// The platform's display name.
    pub fn to_string(&self) -> (r: String)
        ensures
            r@ == match *self {
                PlatformType::Unknown => "Unknown"@,
                PlatformType::Android => "Android"@,
                PlatformType::Ios => "iOS"@,
                PlatformType::Windows => "Windows"@,
                PlatformType::Macos => "macOS"@,
                PlatformType::Linux => "Linux"@,
            },
    {
        match self {
            PlatformType::Unknown => "Unknown".to_string(),
            PlatformType::Android => "Android".to_string(),
            PlatformType::Ios => "iOS".to_string(),
            PlatformType::Windows => "Windows".to_string(),
            PlatformType::Macos => "macOS".to_string(),
            PlatformType::Linux => "Linux".to_string(),
        }
    }

    /// The platform of a target operating system, named as
    /// `std::env::consts::OS` names it.
    pub fn from_os_name(os: &str) -> (r: PlatformType)
        ensures
            r == if os@ == "android"@ {
                PlatformType::Android
            } else if os@ == "ios"@ {
                PlatformType::Ios
            } else if os@ == "windows"@ {
                PlatformType::Windows
            } else if os@ == "macos"@ {
                PlatformType::Macos
            } else if os@ == "linux"@ {
                PlatformType::Linux
            } else {
                PlatformType::Unknown
            },
    {
        if str_eq(os, "android") {
            PlatformType::Android
        } else if str_eq(os, "ios") {
            PlatformType::Ios
        } else if str_eq(os, "windows") {
            PlatformType::Windows
        } else if str_eq(os, "macos") {
            PlatformType::Macos
        } else if str_eq(os, "linux") {
            PlatformType::Linux
        } else {
            PlatformType::Unknown
        }
    }
}


/// Captures the screen.
pub trait ScreenCapturer {
    /// Whether another frame can be numbered.
    spec fn can_capture(&self) -> bool;

    fn capture_frame(&mut self) -> Result<VideoFrame, MediaError>
        requires
            old(self).can_capture(),
    ;

    fn is_running(&self) -> bool;

    fn start(&mut self) -> Result<(), MediaError>;

    fn stop(&mut self) -> Result<(), MediaError>;
}

/// Records audio.
pub trait AudioRecorder {
    /// Whether another frame can be numbered.
    spec fn can_record(&self) -> bool;

    fn record_frame(&mut self) -> Result<AudioFrame, MediaError>
        requires
            old(self).can_record(),
    ;

    fn is_recording(&self) -> bool;

    fn start(&mut self) -> Result<(), MediaError>;

    fn stop(&mut self) -> Result<(), MediaError>;
}

/// Injects input events into the platform.
pub trait InputInjector {
    /// Whether another event can be counted.
    spec fn can_inject(&self) -> bool;

    fn inject_touch(&mut self, event: &TouchEvent) -> Result<(), MediaError>
        requires
            old(self).can_inject(),
    ;

    fn inject_key(&mut self, event: &KeyEvent) -> Result<(), MediaError>
        requires
            old(self).can_inject(),
    ;
}

/// Audio device information.
#[derive(Debug, Clone, Copy, PartialEq, Eq, Structural)]
pub struct AudioInfo {
    pub sample_rate: u32,
    pub channels: u32,
    pub buffer_size: u32,
}

/// Display information. The pixel density is carried as the IEEE-754 bit
/// pattern of its `f32` value: the library passes it on and never computes
/// with it.
#[derive(Debug, Clone, Copy, PartialEq, Eq, Structural)]
pub struct DisplayInfo {
    pub width: u32,
    pub height: u32,
    pub density_bits: u32,
    pub refresh_rate: u32,
    pub rotation: u32,
}

/// The IEEE-754 bit pattern of the `f32` value 2.0.
pub const F32_TWO_BITS: u32 = 0x4000_0000;

/// The IEEE-754 bit pattern of the `f32` value 3.0.
pub const F32_THREE_BITS: u32 = 0x4040_0000;

/// The display defaults of each platform: a 1080x1920 phone and a
/// 1170x2532 120 Hz iPhone, a 2560x1600 Mac screen at double density, and
/// 1920x1080 elsewhere; 60 Hz and unrotated unless said otherwise.
pub open spec fn spec_default_display_info(platform: PlatformType) -> DisplayInfo {
    match platform {
        PlatformType::Android => DisplayInfo { width: 1080, height: 1920, density_bits: F32_TWO_BITS, refresh_rate: 60, rotation: 0 },
        PlatformType::Ios => DisplayInfo { width: 1170, height: 2532, density_bits: F32_THREE_BITS, refresh_rate: 120, rotation: 0 },
        PlatformType::Macos => DisplayInfo { width: 2560, height: 1600, density_bits: F32_TWO_BITS, refresh_rate: 60, rotation: 0 },
        _ => DisplayInfo { width: 1920, height: 1080, density_bits: crate::media::input::F32_ONE_BITS, refresh_rate: 60, rotation: 0 },
    }
}

/// Width of the mock screen.
pub const MOCK_SCREEN_WIDTH: u32 = 1080;

/// Height of the mock screen.
pub const MOCK_SCREEN_HEIGHT: u32 = 1920;

/// A screen capturer that produces gradient frames of a 1080x1920 screen.
#[derive(Debug, Default)]
pub struct MockScreenCapturer {
    running: bool,
    frame_counter: u64,
}

impl MockScreenCapturer {
    pub closed spec fn spec_running(&self) -> bool {
        self.running
    }

    pub closed spec fn frames_captured(&self) -> u64 {
        self.frame_counter
    }

    pub fn new() -> (r: Self)
        ensures
            !r.spec_running(),
            r.frames_captured() == 0,
    {
        MockScreenCapturer { running: false, frame_counter: 0 }
    }
}

impl ScreenCapturer for MockScreenCapturer {
    open spec fn can_capture(&self) -> bool {
        self.frames_captured() < u64::MAX
    }

    /// The next RGBA frame, a gradient shifted by the frame number; fails
    /// while stopped.
    fn capture_frame(&mut self) -> (r: Result<VideoFrame, MediaError>)
        ensures
            r is Ok <==> old(self).spec_running(),
            r matches Err(e) ==> e is NotInitialized && *final(self) == *old(self),
            final(self).spec_running() == old(self).spec_running(),
            r matches Ok(f) ==> final(self).frames_captured() == old(self).frames_captured() + 1
                && f.sequence_id == final(self).frames_captured() && f.width == MOCK_SCREEN_WIDTH
                && f.height == MOCK_SCREEN_HEIGHT && f.pixel_format == PixelFormat::Rgba8888
                && f.is_keyframe == (final(self).frames_captured() % 30 == 1) && f.data@ == gradient(
                (MOCK_SCREEN_WIDTH * MOCK_SCREEN_HEIGHT * 4) as nat,
                (final(self).frames_captured() % 256) as int,
            ),
    {
        if !self.running {
            return Err(MediaError::NotInitialized);
        }
        self.frame_counter = self.frame_counter + 1;
        let width: u32 = MOCK_SCREEN_WIDTH;
        let height: u32 = MOCK_SCREEN_HEIGHT;
        let frame_size = (width * height * 4) as usize;
        let data = gradient_bytes(frame_size, (self.frame_counter % 256) as u8);
        Ok(VideoFrame {
            sequence_id: self.frame_counter,
            timestamp_ms: unix_time_ms(),
            width,
            height,
            pixel_format: PixelFormat::Rgba8888,
            is_keyframe: self.frame_counter % 30 == 1,
            data,
        })
    }

    fn is_running(&self) -> (r: bool)
        ensures
            r == self.spec_running(),
    {
        self.running
    }

    fn start(&mut self) -> (r: Result<(), MediaError>)
        ensures
            r is Ok,
            final(self).spec_running(),
            final(self).frames_captured() == old(self).frames_captured(),
    {
        self.running = true;
        Ok(())
    }

    fn stop(&mut self) -> (r: Result<(), MediaError>)
        ensures
            r is Ok,
            !final(self).spec_running(),
            final(self).frames_captured() == old(self).frames_captured(),
    {
        self.running = false;
        Ok(())
    }
}

/// Sample rate of the mock recorder.
pub const MOCK_SAMPLE_RATE: u32 = 44100;

/// Channels of the mock recorder.
pub const MOCK_CHANNELS: u32 = 2;

/// Samples per channel of each mock frame.
pub const MOCK_SAMPLES_PER_CHANNEL: u32 = 1024;

/// An audio recorder that produces 16-bit stereo frames of a 440 Hz tone
/// at 44.1 kHz. The tone's samples are synthesized by the application
/// layer; this type keeps the recorder's state and frame numbering.
#[derive(Debug, Default)]
pub struct MockAudioRecorder {
    recording: bool,
    frame_counter: u64,
    sample_counter: u64,
}

impl MockAudioRecorder {
    pub closed spec fn spec_recording(&self) -> bool {
        self.recording
    }

    pub closed spec fn frames_recorded(&self) -> u64 {
        self.frame_counter
    }

    pub closed spec fn samples_recorded(&self) -> u64 {
        self.sample_counter
    }

    pub fn new() -> (r: Self)
        ensures
            !r.spec_recording(),
            r.frames_recorded() == 0,
            r.samples_recorded() == 0,
    {
        MockAudioRecorder { recording: false, frame_counter: 0, sample_counter: 0 }
    }

    pub fn is_recording(&self) -> (r: bool)
        ensures
            r == self.spec_recording(),
    {
        self.recording
    }

    /// How many frames have been recorded.
    pub fn frame_counter(&self) -> (r: u64)
        ensures
            r == self.frames_recorded(),
    {
        self.frame_counter
    }

    /// The index of the next sample to be recorded.
    pub fn sample_counter(&self) -> (r: u64)
        ensures
            r == self.samples_recorded(),
    {
        self.sample_counter
    }

    pub fn start(&mut self) -> (r: Result<(), MediaError>)
        ensures
            r is Ok,
            final(self).spec_recording(),
            final(self).frames_recorded() == old(self).frames_recorded(),
            final(self).samples_recorded() == old(self).samples_recorded(),
    {
        self.recording = true;
        Ok(())
    }

    pub fn stop(&mut self) -> (r: Result<(), MediaError>)
        ensures
            r is Ok,
            !final(self).spec_recording(),
            final(self).frames_recorded() == old(self).frames_recorded(),
            final(self).samples_recorded() == old(self).samples_recorded(),
    {
        self.recording = false;
        Ok(())
    }

    /// Completes the next frame from its 16-bit stereo sample bytes; fails
    /// while stopped.
    pub fn assemble_frame(&mut self, data: Vec<u8>) -> (r: Result<AudioFrame, MediaError>)
        requires
            old(self).frames_recorded() < u64::MAX,
            old(self).samples_recorded() + MOCK_SAMPLES_PER_CHANNEL * MOCK_CHANNELS <= u64::MAX,
            data@.len() == MOCK_SAMPLES_PER_CHANNEL * MOCK_CHANNELS * 2,
        ensures
            r is Ok <==> old(self).spec_recording(),
            r matches Err(e) ==> e is NotInitialized && *final(self) == *old(self),
            final(self).spec_recording() == old(self).spec_recording(),
            r matches Ok(f) ==> final(self).frames_recorded() == old(self).frames_recorded() + 1
                && final(self).samples_recorded() == old(self).samples_recorded()
                + MOCK_SAMPLES_PER_CHANNEL * MOCK_CHANNELS && f.sequence_id == final(self).frames_recorded() && f.sample_rate == MOCK_SAMPLE_RATE && f.channels
                == MOCK_CHANNELS && f.sample_format == SampleFormat::S16 && f.data@ == data@,
    {
        if !self.recording {
            return Err(MediaError::NotInitialized);
        }
        self.frame_counter = self.frame_counter + 1;
        let total_samples: u32 = MOCK_SAMPLES_PER_CHANNEL * MOCK_CHANNELS;
        self.sample_counter = self.sample_counter + total_samples as u64;
        Ok(AudioFrame {
            sequence_id: self.frame_counter,
            timestamp_ms: unix_time_ms(),
            sample_rate: MOCK_SAMPLE_RATE,
            channels: MOCK_CHANNELS,
            sample_format: SampleFormat::S16,
            data,
        })
    }
}

/// An input injector that accepts every event.
#[derive(Debug, Default)]
pub struct MockInputInjector;

impl InputInjector for MockInputInjector {
    open spec fn can_inject(&self) -> bool {
        true
    }

    fn inject_touch(&mut self, event: &TouchEvent) -> (r: Result<(), MediaError>)
        ensures
            r is Ok,
    {
        Ok(())
    }

    fn inject_key(&mut self, event: &KeyEvent) -> (r: Result<(), MediaError>)
        ensures
            r is Ok,
    {
        Ok(())
    }
}

/// The audio defaults of each platform: 44.1 kHz with 1024-sample buffers
/// on mobile and unknown platforms, 48 kHz with 2048-sample buffers on
/// desktops; always stereo.
pub open spec fn spec_default_audio_info(platform: PlatformType) -> AudioInfo {
    match platform {
        PlatformType::Android | PlatformType::Ios | PlatformType::Unknown => AudioInfo {
            sample_rate: 44100,
            channels: 2,
            buffer_size: 1024,
        },
        _ => AudioInfo { sample_rate: 48000, channels: 2, buffer_size: 2048 },
    }
}

/// A platform adapter built from the mock capturer, recorder and injector.
#[derive(Debug)]
pub struct DefaultPlatformAdapter {
    platform_type: PlatformType,
    screen_capturer: Option<Arc<MockScreenCapturer>>,
    audio_recorder: Option<Arc<MockAudioRecorder>>,
    input_injector: Option<Arc<MockInputInjector>>,
}

impl DefaultPlatformAdapter {
    pub closed spec fn spec_platform_type(&self) -> PlatformType {
        self.platform_type
    }

    /// The screen capturer the adapter holds.
    pub closed spec fn spec_screen_capturer(&self) -> Option<Arc<MockScreenCapturer>> {
        self.screen_capturer
    }

    /// The audio recorder the adapter holds.
    pub closed spec fn spec_audio_recorder(&self) -> Option<Arc<MockAudioRecorder>> {
        self.audio_recorder
    }

    /// The input injector the adapter holds.
    pub closed spec fn spec_input_injector(&self) -> Option<Arc<MockInputInjector>> {
        self.input_injector
    }

    /// The adapter holds a capturer, a recorder and an injector.
    pub open spec fn has_components(&self) -> bool {
        self.spec_screen_capturer() is Some && self.spec_audio_recorder() is Some && self.spec_input_injector() is Some
    }

    pub fn new(platform_type: PlatformType) -> (r: Self)
        ensures
            r.spec_platform_type() == platform_type,
            r.has_components(),
    {
        DefaultPlatformAdapter {
            platform_type,
            screen_capturer: Some(Arc::new(MockScreenCapturer::new())),
            audio_recorder: Some(Arc::new(MockAudioRecorder::new())),
            input_injector: Some(Arc::new(MockInputInjector)),
        }
    }

    pub fn platform_type(&self) -> (r: PlatformType)
        ensures
            r == self.spec_platform_type(),
    {
        self.platform_type
    }

    /// The adapter's screen capturer: a clone of the handle it holds.
    pub fn screen_capturer(&self) -> (r: Option<Arc<MockScreenCapturer>>)
        ensures
            r is Some <==> self.spec_screen_capturer() is Some,
            r matches Some(c) ==> cloned::<Arc<MockScreenCapturer>>(self.spec_screen_capturer()->0, c),
    {
        self.screen_capturer.clone()
    }

    /// The adapter's audio recorder: a clone of the handle it holds.
    pub fn audio_recorder(&self) -> (r: Option<Arc<MockAudioRecorder>>)
        ensures
            r is Some <==> self.spec_audio_recorder() is Some,
            r matches Some(c) ==> cloned::<Arc<MockAudioRecorder>>(self.spec_audio_recorder()->0, c),
    {
        self.audio_recorder.clone()
    }

    /// The adapter's input injector: a clone of the handle it holds.
    pub fn input_injector(&self) -> (r: Option<Arc<MockInputInjector>>)
        ensures
            r is Some <==> self.spec_input_injector() is Some,
            r matches Some(c) ==> cloned::<Arc<MockInputInjector>>(self.spec_input_injector()->0, c),
    {
        self.input_injector.clone()
    }

    /// The platform's default audio device information.
    pub fn default_audio_info(platform: PlatformType) -> (r: AudioInfo)
        ensures
            r == spec_default_audio_info(platform),
    {
        match platform {
            PlatformType::Android | PlatformType::Ios | PlatformType::Unknown => AudioInfo {
                sample_rate: 44100,
                channels: 2,
                buffer_size: 1024,
            },
            PlatformType::Windows | PlatformType::Macos | PlatformType::Linux => AudioInfo {
                sample_rate: 48000,
                channels: 2,
                buffer_size: 2048,
            },
        }
    }

    /// The platform's default display information.
    pub fn default_display_info(platform: PlatformType) -> (r: DisplayInfo)
        ensures
            r == spec_default_display_info(platform),
    {
        match platform {
            PlatformType::Android => DisplayInfo {
                width: 1080,
                height: 1920,
                density_bits: F32_TWO_BITS,
                refresh_rate: 60,
                rotation: 0,
            },
            PlatformType::Ios => DisplayInfo {
                width: 1170,
                height: 2532,
                density_bits: F32_THREE_BITS,
                refresh_rate: 120,
                rotation: 0,
            },
            PlatformType::Windows | PlatformType::Linux | PlatformType::Unknown => DisplayInfo {
                width: 1920,
                height: 1080,
                density_bits: crate::media::input::F32_ONE_BITS,
                refresh_rate: 60,
                rotation: 0,
            },
            PlatformType::Macos => DisplayInfo {
                width: 2560,
                height: 1600,
                density_bits: F32_TWO_BITS,
                refresh_rate: 60,
                rotation: 0,
            },
        }
    }

    /// The adapter platform's display information.
    pub fn get_display_info(&self) -> (r: Result<DisplayInfo, MediaError>)
        ensures
            r == Ok::<DisplayInfo, MediaError>(spec_default_display_info(self.spec_platform_type())),
    {
        Ok(Self::default_display_info(self.platform_type))
    }

    /// The adapter platform's audio device information.
    pub fn get_audio_info(&self) -> (r: Result<AudioInfo, MediaError>)
        ensures
            r == Ok::<AudioInfo, MediaError>(spec_default_audio_info(self.spec_platform_type())),
    {
        Ok(Self::default_audio_info(self.platform_type))
    }
}

} // verus!
