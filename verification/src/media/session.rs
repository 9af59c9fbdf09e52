//! Screen mirroring session management.

use vstd::prelude::*;
use crate::clock::instant_now;
use crate::media::audio::{AudioFrameGenerator, AudioProcessor, sample_size};
use crate::media::error::MediaError;
use crate::media::input::{DefaultInputHandler, InputDispatcher, InputEvent, InputHandler};
use crate::media::video::{VideoFrameGenerator, VideoProcessor, generated_frame_size};
use crate::protocol::{AudioConfig, AudioFrame, PixelFormat, SampleFormat, VideoConfig, VideoFrame};

verus! {

/// Session state.
#[derive(Debug, Clone, Copy, PartialEq, Eq, Structural)]
pub enum SessionState {
    Idle,
    Starting,
    Active,
    Paused,
    Stopping,
    Error,
}

impl SessionState {
    /// The state's name.
    pub fn to_string(&self) -> (r: String)
        ensures
            r@ == match *self {
                SessionState::Idle => "Idle"@,
                SessionState::Starting => "Starting"@,
                SessionState::Active => "Active"@,
                SessionState::Paused => "Paused"@,
                SessionState::Stopping => "Stopping"@,
                SessionState::Error => "Error"@,
            },
    {
        match self {
            SessionState::Idle => "Idle".to_string(),
            SessionState::Starting => "Starting".to_string(),
            SessionState::Active => "Active".to_string(),
            SessionState::Paused => "Paused".to_string(),
            SessionState::Stopping => "Stopping".to_string(),
            SessionState::Error => "Error".to_string(),
        }
    }
}

/// Session configuration.
#[derive(Debug, Clone)]
pub struct SessionConfig {
    pub video_width: u32,
    pub video_height: u32,
    pub video_format: PixelFormat,
    pub frame_rate: u32,
    pub audio_sample_rate: u32,
    pub audio_channels: u32,
    pub audio_format: SampleFormat,
}

impl Default for SessionConfig {
    /// 1080p RGBA video at 30 frames per second, 44.1 kHz 16-bit stereo audio.
    fn default() -> (r: Self)
        ensures
            r.video_width == 1920,
            r.video_height == 1080,
            r.video_format == PixelFormat::Rgba8888,
            r.frame_rate == 30,
            r.audio_sample_rate == 44100,
            r.audio_channels == 2,
            r.audio_format == SampleFormat::S16,
    {
        SessionConfig {
            video_width: 1920,
            video_height: 1080,
            video_format: PixelFormat::Rgba8888,
            frame_rate: 30,
            audio_sample_rate: 44100,
            audio_channels: 2,
            audio_format: SampleFormat::S16,
        }
    }
}

/// The bit rates that `configure` derives fit in 32 bits.
pub open spec fn bitrates_fit(config: SessionConfig) -> bool {
    &&& config.video_width * config.video_height * 4 <= u32::MAX
    &&& config.video_width * config.video_height * 4 * config.frame_rate <= u32::MAX
    &&& config.audio_sample_rate * 2 <= u32::MAX
    &&& config.audio_sample_rate * 2 * config.audio_channels <= u32::MAX
    &&& config.audio_sample_rate * 2 * config.audio_channels * 16 <= u32::MAX
}

/// Manages a mirroring session: video, audio and input.
pub struct MirroringSession {
    state: SessionState,
    config: Option<SessionConfig>,
    video_processor: VideoProcessor,
    audio_processor: AudioProcessor,
    video_generator: Option<VideoFrameGenerator>,
    audio_generator: Option<AudioFrameGenerator>,
    input_dispatcher: InputDispatcher,
    input_handler: DefaultInputHandler,
    start_time: Option<std::time::Instant>,
    total_video_frames: u64,
    total_audio_frames: u64,
    total_input_events: u64,
}

impl MirroringSession {
    pub closed spec fn spec_state(&self) -> SessionState {
        self.state
    }

    pub closed spec fn spec_config(&self) -> Option<SessionConfig> {
        self.config
    }

    pub closed spec fn spec_video_processor(&self) -> VideoProcessor {
        self.video_processor
    }

    pub closed spec fn spec_audio_processor(&self) -> AudioProcessor {
        self.audio_processor
    }

    pub closed spec fn spec_video_generator(&self) -> Option<VideoFrameGenerator> {
        self.video_generator
    }

    pub closed spec fn spec_audio_generator(&self) -> Option<AudioFrameGenerator> {
        self.audio_generator
    }

    pub closed spec fn spec_input_dispatcher(&self) -> InputDispatcher {
        self.input_dispatcher
    }

    pub closed spec fn spec_input_handler(&self) -> DefaultInputHandler {
        self.input_handler
    }

    pub closed spec fn spec_started(&self) -> bool {
        self.start_time is Some
    }

    pub closed spec fn spec_total_video_frames(&self) -> u64 {
        self.total_video_frames
    }

    pub closed spec fn spec_total_audio_frames(&self) -> u64 {
        self.total_audio_frames
    }

    pub closed spec fn spec_total_input_events(&self) -> u64 {
        self.total_input_events
    }

    /// The frame generators are those of the configuration: none before
    /// the session is configured, and after it a video generator of the
    /// configured size and pixel format and an audio generator of the
    /// configured sample rate and channel count.
    pub open spec fn generators_match_config(&self) -> bool {
        match self.spec_config() {
            None => self.spec_video_generator() is None && self.spec_audio_generator() is None,
            Some(c) => {
                &&& self.spec_video_generator() matches Some(g) && g.spec_width() == c.video_width
                    && g.spec_height() == c.video_height && g.spec_pixel_format() == c.video_format
                &&& self.spec_audio_generator() matches Some(a) && a.spec_sample_rate() == c.audio_sample_rate
                    && a.spec_channels() == c.audio_channels
            },
        }
    }

    /// Nothing but the state and the start time differ between `a` and `b`.
    pub open spec fn same_media(a: MirroringSession, b: MirroringSession) -> bool {
        &&& a.spec_config() == b.spec_config()
        &&& a.spec_video_processor() == b.spec_video_processor()
        &&& a.spec_audio_processor() == b.spec_audio_processor()
        &&& a.spec_video_generator() == b.spec_video_generator()
        &&& a.spec_audio_generator() == b.spec_audio_generator()
        &&& a.spec_input_dispatcher() == b.spec_input_dispatcher()
        &&& a.spec_input_handler() == b.spec_input_handler()
        &&& a.spec_total_video_frames() == b.spec_total_video_frames()
        &&& a.spec_total_audio_frames() == b.spec_total_audio_frames()
        &&& a.spec_total_input_events() == b.spec_total_input_events()
    }

    pub fn new() -> (r: Self)
        ensures
            r.generators_match_config(),
            r.spec_state() == SessionState::Idle,
            r.spec_config() is None,
            r.spec_video_generator() is None,
            r.spec_audio_generator() is None,
            !r.spec_started(),
            r.spec_video_processor().spec_config() is None,
            r.spec_video_processor().spec_frame_count() == 0,
            r.spec_audio_processor().spec_config() is None,
            r.spec_audio_processor().spec_frame_count() == 0,
            r.spec_audio_processor().spec_total_samples() == 0,
            r.spec_input_dispatcher().spec_event_count() == 0,
            r.spec_input_handler().spec_touch_count() == 0,
            r.spec_input_handler().spec_key_count() == 0,
            r.spec_total_video_frames() == 0,
            r.spec_total_audio_frames() == 0,
            r.spec_total_input_events() == 0,
    {
        MirroringSession {
            state: SessionState::Idle,
            config: None,
            video_processor: VideoProcessor::new(),
            audio_processor: AudioProcessor::new(),
            video_generator: None,
            audio_generator: None,
            input_dispatcher: InputDispatcher::new(),
            input_handler: DefaultInputHandler::new(),
            start_time: None,
            total_video_frames: 0,
            total_audio_frames: 0,
            total_input_events: 0,
        }
    }

    /// A new session configured with `config`; a rejected configuration
    /// leaves it as `configure` left it.
    pub fn new_with_config(config: SessionConfig) -> (r: Self)
        requires
            (config.video_width != 0 && config.video_height != 0 && config.audio_sample_rate != 0)
                ==> bitrates_fit(config),
        ensures
            r.generators_match_config(),
            r.spec_state() == SessionState::Idle,
            r.spec_config() is Some <==> (config.video_width != 0 && config.video_height != 0
                && config.audio_sample_rate != 0 && config.audio_channels != 0),
            r.spec_config() is Some ==> r.spec_config() == Some(config),
            r.spec_total_video_frames() == 0,
            r.spec_total_audio_frames() == 0,
            r.spec_total_input_events() == 0,
    {
        let mut session = Self::new();
        let _ = session.configure(config);
        session
    }

    /// Configures video and audio; refused while the session is active and
    /// for a zero video size, sample rate or channel count.
    pub fn configure(&mut self, config: SessionConfig) -> (r: Result<(), MediaError>)
        requires
            (old(self).spec_state() != SessionState::Active && config.video_width != 0
                && config.video_height != 0 && config.audio_sample_rate != 0) ==> bitrates_fit(
                config,
            ),
        ensures
            old(self).generators_match_config() ==> final(self).generators_match_config(),
            r is Ok <==> (old(self).spec_state() != SessionState::Active && config.video_width != 0
                && config.video_height != 0 && config.audio_sample_rate != 0 && config.audio_channels
                != 0),
            old(self).spec_state() == SessionState::Active ==> (r matches Err(e) && e is Session),
            old(self).spec_state() != SessionState::Active && !(config.video_width != 0
                && config.video_height != 0 && config.audio_sample_rate != 0
                && config.audio_channels != 0) ==> (r matches Err(e) && e is InvalidConfig),
            final(self).spec_state() == old(self).spec_state(),
            final(self).spec_started() == old(self).spec_started(),
            final(self).spec_total_video_frames() == old(self).spec_total_video_frames(),
            final(self).spec_total_audio_frames() == old(self).spec_total_audio_frames(),
            final(self).spec_total_input_events() == old(self).spec_total_input_events(),
            final(self).spec_input_dispatcher() == old(self).spec_input_dispatcher(),
            final(self).spec_input_handler() == old(self).spec_input_handler(),
            final(self).spec_audio_processor().spec_frame_count() == old(self).spec_audio_processor().spec_frame_count(),
            final(self).spec_audio_processor().spec_total_samples() == old(self).spec_audio_processor().spec_total_samples(),
            final(self).spec_video_processor().spec_frame_count() == old(self).spec_video_processor().spec_frame_count(),
            r is Ok ==> {
                &&& final(self).spec_config() == Some(config)
                &&& final(self).spec_video_processor().spec_config() matches Some(vc) && vc.width
                    == config.video_width && vc.height == config.video_height && vc.pixel_format
                    == config.video_format && vc.frame_rate == config.frame_rate && vc.codec@
                    == "raw"@ && vc.bitrate == config.video_width * config.video_height * 4
                    * config.frame_rate
                &&& final(self).spec_audio_processor().spec_config() matches Some(ac)
                    && ac.sample_rate == config.audio_sample_rate && ac.channels
                    == config.audio_channels && ac.sample_format == config.audio_format
                    && ac.codec@ == "pcm"@ && ac.bitrate == config.audio_sample_rate * 2
                    * config.audio_channels * 16
                &&& final(self).spec_video_generator() matches Some(g) && g.spec_width()
                    == config.video_width && g.spec_height() == config.video_height
                    && g.spec_pixel_format() == config.video_format && g.frames_generated() == 0
                &&& final(self).spec_audio_generator() matches Some(g) && g.spec_sample_rate()
                    == config.audio_sample_rate && g.spec_channels() == config.audio_channels
                    && g.spec_sample_format() == config.audio_format && g.frames_generated() == 0
                    && g.samples_generated() == 0
            },
            r is Err ==> {
                &&& final(self).spec_config() == old(self).spec_config()
                &&& final(self).spec_video_generator() == old(self).spec_video_generator()
                &&& final(self).spec_audio_generator() == old(self).spec_audio_generator()
                &&& final(self).spec_audio_processor().spec_config() == old(self).spec_audio_processor().spec_config()
            },
            // A zero channel count is noticed only after the video side took
            // the configuration.
            (r is Err && old(self).spec_state() != SessionState::Active && config.video_width != 0
                && config.video_height != 0 && config.audio_sample_rate != 0)
                ==> final(self).spec_video_processor().spec_config() is Some,
            (r is Err && !(old(self).spec_state() != SessionState::Active && config.video_width != 0
                && config.video_height != 0 && config.audio_sample_rate != 0))
                ==> final(self).spec_video_processor().spec_config() == old(self).spec_video_processor().spec_config(),
    {
        if self.state == SessionState::Active {
            return Err(MediaError::Session("Cannot reconfigure an active session".to_string()));
        }
        if config.video_width == 0 || config.video_height == 0 {
            return Err(MediaError::InvalidConfig("Video dimensions must be greater than 0".to_string()));
        }
        if config.audio_sample_rate == 0 {
            return Err(MediaError::InvalidConfig("Audio sample rate must be greater than 0".to_string()));
        }
        let video_cfg = VideoConfig {
            width: config.video_width,
            height: config.video_height,
            pixel_format: config.video_format,
            frame_rate: config.frame_rate,
            codec: "raw".to_string(),
            bitrate: config.video_width * config.video_height * 4 * config.frame_rate,
        };
        self.video_processor.configure(video_cfg)?;
        let audio_cfg = AudioConfig {
            sample_rate: config.audio_sample_rate,
            channels: config.audio_channels,
            sample_format: config.audio_format,
            codec: "pcm".to_string(),
            bitrate: config.audio_sample_rate * 2 * config.audio_channels * 16,
        };
        self.audio_processor.configure(audio_cfg)?;
        self.video_generator = Some(
            VideoFrameGenerator::new(config.video_width, config.video_height, config.video_format),
        );
        self.audio_generator = Some(
            AudioFrameGenerator::new(config.audio_sample_rate, config.audio_channels, config.audio_format),
        );
        self.config = Some(config);
        Ok(())
    }

    /// Starts the session; needs a configuration, and an active session stays as it is.
    pub fn start(&mut self) -> (r: Result<(), MediaError>)
        ensures
            old(self).generators_match_config() ==> final(self).generators_match_config(),
            r is Ok <==> old(self).spec_config() is Some,
            r matches Err(e) ==> e is NotInitialized,
            r is Ok ==> final(self).spec_state() == SessionState::Active,
            r is Ok && old(self).spec_state() != SessionState::Active ==> final(self).spec_started(),
            (r is Err || old(self).spec_state() == SessionState::Active) ==> final(self).spec_started() == old(self).spec_started(),
            r is Err ==> final(self).spec_state() == old(self).spec_state(),
            Self::same_media(*old(self), *final(self)),
    {
        if self.config.is_none() {
            return Err(MediaError::NotInitialized);
        }
        if self.state == SessionState::Active {
            return Ok(());
        }
        self.state = SessionState::Starting;
        self.start_time = Some(instant_now());
        self.state = SessionState::Active;
        Ok(())
    }

    /// Stops the session, from any state.
    pub fn stop(&mut self) -> (r: Result<(), MediaError>)
        ensures
            old(self).generators_match_config() ==> final(self).generators_match_config(),
            r is Ok,
            final(self).spec_state() == SessionState::Idle,
            !final(self).spec_started(),
            Self::same_media(*old(self), *final(self)),
    {
        self.state = SessionState::Stopping;
        self.start_time = None;
        self.state = SessionState::Idle;
        Ok(())
    }

    /// Pauses an active session.
    pub fn pause(&mut self) -> (r: Result<(), MediaError>)
        ensures
            old(self).generators_match_config() ==> final(self).generators_match_config(),
            r is Ok <==> old(self).spec_state() == SessionState::Active,
            r matches Err(e) ==> e is Session,
            final(self).spec_state() == if r is Ok {
                SessionState::Paused
            } else {
                old(self).spec_state()
            },
            final(self).spec_started() == old(self).spec_started(),
            Self::same_media(*old(self), *final(self)),
    {
        if self.state != SessionState::Active {
            return Err(MediaError::Session("Cannot pause a non-active session".to_string()));
        }
        self.state = SessionState::Paused;
        Ok(())
    }

    /// Resumes a paused session.
    pub fn resume(&mut self) -> (r: Result<(), MediaError>)
        ensures
            old(self).generators_match_config() ==> final(self).generators_match_config(),
            r is Ok <==> old(self).spec_state() == SessionState::Paused,
            r matches Err(e) ==> e is Session,
            final(self).spec_state() == if r is Ok {
                SessionState::Active
            } else {
                old(self).spec_state()
            },
            final(self).spec_started() == old(self).spec_started(),
            Self::same_media(*old(self), *final(self)),
    {
        if self.state != SessionState::Paused {
            return Err(MediaError::Session("Cannot resume a non-paused session".to_string()));
        }
        self.state = SessionState::Active;
        Ok(())
    }

    pub fn state(&self) -> (r: SessionState)
        ensures
            r == self.spec_state(),
    {
        self.state
    }

    pub fn config(&self) -> (r: Option<&SessionConfig>)
        ensures
            r matches Some(c) ==> self.spec_config() == Some(*c),
            r is None <==> self.spec_config() is None,
    {
        self.config.as_ref()
    }

    pub fn is_active(&self) -> (r: bool)
        ensures
            r == (self.spec_state() == SessionState::Active),
    {
        self.state == SessionState::Active
    }

    /// When the session was last started, if it is running.
    pub fn start_time(&self) -> (r: Option<std::time::Instant>)
        ensures
            r is Some == self.spec_started(),
    {
        self.start_time
    }

    /// The session's audio generator, once configured.
    pub fn audio_generator(&self) -> (r: Option<&AudioFrameGenerator>)
        ensures
            r matches Some(g) ==> self.spec_audio_generator() == Some(*g),
            r is None <==> self.spec_audio_generator() is None,
    {
        self.audio_generator.as_ref()
    }

    /// Generates the next video frame of an active session.
    pub fn generate_video_frame(&mut self) -> (r: Result<VideoFrame, MediaError>)
        requires
            old(self).spec_state() == SessionState::Active ==> old(self).spec_total_video_frames()
                < u64::MAX && (old(self).spec_video_generator() matches Some(g)
                ==> g.frames_generated() < u64::MAX && g.size_fits()),
        ensures
            old(self).generators_match_config() ==> final(self).generators_match_config(),
            old(self).spec_state() != SessionState::Active ==> (r matches Err(e) && e is Session),
            old(self).spec_state() == SessionState::Active && old(self).spec_video_generator() is None
                ==> (r matches Err(e) && e is NotInitialized),
            r is Ok <==> old(self).spec_state() == SessionState::Active && old(self).spec_video_generator() is Some,
            r is Ok ==> final(self).spec_total_video_frames() == old(self).spec_total_video_frames()
                + 1,
            r is Err ==> *final(self) == *old(self),
            r matches Ok(f) ==> (old(self).spec_video_generator() matches Some(g)
                && final(self).spec_video_generator() matches Some(g2) && g2.frames_generated()
                == g.frames_generated() + 1 && g2.spec_width() == g.spec_width()
                && g2.spec_height() == g.spec_height() && g2.spec_pixel_format()
                == g.spec_pixel_format() && f.sequence_id == g2.frames_generated() && f.width
                == g.spec_width() && f.height == g.spec_height() && f.pixel_format
                == g.spec_pixel_format() && f.data@.len() == generated_frame_size(
                g.spec_width(),
                g.spec_height(),
                g.spec_pixel_format(),
            )),
            final(self).spec_state() == old(self).spec_state(),
            final(self).spec_total_audio_frames() == old(self).spec_total_audio_frames(),
            final(self).spec_audio_generator() == old(self).spec_audio_generator(),
    {
        if self.state != SessionState::Active {
            return Err(MediaError::Session("Session is not active".to_string()));
        }
        let frame = match self.video_generator.as_mut() {
            Some(generator) => generator.generate_frame()?,
            None => {
                return Err(MediaError::NotInitialized);
            },
        };
        self.total_video_frames = self.total_video_frames + 1;
        Ok(frame)
    }

    /// Completes the next audio frame of an active session from its sample
    /// bytes, produced for the session's audio generator.
    pub fn assemble_audio_frame(&mut self, samples_per_channel: u32, data: Vec<u8>) -> (r: Result<
        AudioFrame,
        MediaError,
    >)
        requires
            old(self).spec_state() == SessionState::Active ==> old(self).spec_total_audio_frames()
                < u64::MAX && (old(self).spec_audio_generator() matches Some(g)
                ==> samples_per_channel * g.spec_channels() <= u32::MAX && g.spec_frame_len(
                samples_per_channel,
            ) <= u32::MAX && data@.len() == g.spec_frame_len(samples_per_channel)
                && g.frames_generated() < u64::MAX && g.samples_generated() + samples_per_channel
                * g.spec_channels() <= u64::MAX),
        ensures
            old(self).generators_match_config() ==> final(self).generators_match_config(),
            old(self).spec_state() != SessionState::Active ==> (r matches Err(e) && e is Session),
            old(self).spec_state() == SessionState::Active && old(self).spec_audio_generator() is None
                ==> (r matches Err(e) && e is NotInitialized),
            r is Ok <==> old(self).spec_state() == SessionState::Active && old(self).spec_audio_generator() is Some,
            r is Ok ==> final(self).spec_total_audio_frames() == old(self).spec_total_audio_frames()
                + 1,
            r is Err ==> *final(self) == *old(self),
            r matches Ok(f) ==> (old(self).spec_audio_generator() matches Some(g)
                && final(self).spec_audio_generator() matches Some(g2) && g2.frames_generated()
                == g.frames_generated() + 1 && g2.samples_generated() == g.samples_generated()
                + samples_per_channel * g.spec_channels() && f.sequence_id == g2.frames_generated()
                && f.sample_rate == g.spec_sample_rate() && f.channels == g.spec_channels()
                && f.sample_format == g.spec_sample_format() && f.data@ == data@),
            final(self).spec_state() == old(self).spec_state(),
            final(self).spec_total_video_frames() == old(self).spec_total_video_frames(),
            final(self).spec_video_generator() == old(self).spec_video_generator(),
    {
        if self.state != SessionState::Active {
            return Err(MediaError::Session("Session is not active".to_string()));
        }
        let frame = match self.audio_generator.as_mut() {
            Some(generator) => generator.assemble_frame(samples_per_channel, data)?,
            None => {
                return Err(MediaError::NotInitialized);
            },
        };
        self.total_audio_frames = self.total_audio_frames + 1;
        Ok(frame)
    }

    /// Hands an incoming video frame to the video processor of an active session.
    pub fn process_incoming_video_frame(&mut self, frame: &VideoFrame) -> (r: Result<
        (),
        MediaError,
    >)
        requires
            old(self).spec_video_processor().spec_frame_count() < u64::MAX,
        ensures
            old(self).generators_match_config() ==> final(self).generators_match_config(),
            r is Ok <==> old(self).spec_state() == SessionState::Active && old(self).spec_video_processor().spec_config() is Some,
            old(self).spec_state() != SessionState::Active ==> (r matches Err(e) && e is Session),
            old(self).spec_state() == SessionState::Active && old(self).spec_video_processor().spec_config() is None ==> (r matches Err(e) && e is NotInitialized),
            final(self).spec_video_processor().spec_frame_count() == old(self).spec_video_processor().spec_frame_count() + if r is Ok {
                1int
            } else {
                0int
            },
            final(self).spec_video_processor().spec_config() == old(self).spec_video_processor().spec_config(),
            final(self).spec_state() == old(self).spec_state(),
    {
        if self.state != SessionState::Active {
            return Err(MediaError::Session("Session is not active".to_string()));
        }
        self.video_processor.process_incoming_frame(frame)
    }

    /// Hands an incoming audio frame to the audio processor of an active session.
    pub fn process_incoming_audio_frame(&mut self, frame: &AudioFrame) -> (r: Result<
        (),
        MediaError,
    >)
        requires
            old(self).spec_audio_processor().spec_frame_count() < u64::MAX,
            old(self).spec_audio_processor().spec_total_samples() + (frame.data@.len() as int)
                / sample_size(frame.sample_format) <= u64::MAX,
        ensures
            old(self).generators_match_config() ==> final(self).generators_match_config(),
            r is Ok <==> old(self).spec_state() == SessionState::Active && old(self).spec_audio_processor().spec_config() is Some,
            old(self).spec_state() != SessionState::Active ==> (r matches Err(e) && e is Session),
            old(self).spec_state() == SessionState::Active && old(self).spec_audio_processor().spec_config() is None ==> (r matches Err(e) && e is NotInitialized),
            r is Ok ==> final(self).spec_audio_processor().spec_frame_count() == old(self).spec_audio_processor().spec_frame_count() + 1 && final(self).spec_audio_processor().spec_total_samples() == old(self).spec_audio_processor().spec_total_samples() + (frame.data@.len() as int)
                / sample_size(frame.sample_format),
            r is Err ==> final(self).spec_audio_processor().spec_frame_count() == old(self).spec_audio_processor().spec_frame_count() && final(self).spec_audio_processor().spec_total_samples() == old(self).spec_audio_processor().spec_total_samples(),
            final(self).spec_audio_processor().spec_config() == old(self).spec_audio_processor().spec_config(),
            final(self).spec_state() == old(self).spec_state(),
    {
        if self.state != SessionState::Active {
            return Err(MediaError::Session("Session is not active".to_string()));
        }
        self.audio_processor.process_incoming_frame(frame)
    }

    /// Dispatches an input event of an active session to its input handler.
    pub fn handle_input_event(&mut self, event: InputEvent) -> (r: Result<(), MediaError>)
        requires
            old(self).spec_state() == SessionState::Active ==> old(self).spec_total_input_events()
                < u64::MAX && old(self).spec_input_dispatcher().spec_event_count() < u64::MAX
                && old(self).spec_input_handler().can_handle(),
        ensures
            old(self).generators_match_config() ==> final(self).generators_match_config(),
            r is Ok <==> old(self).spec_state() == SessionState::Active,
            r matches Err(e) ==> e is Session,
            final(self).spec_total_input_events() == old(self).spec_total_input_events() + if r is Ok {
                1int
            } else {
                0int
            },
            r is Ok ==> final(self).spec_input_dispatcher().spec_event_count() == old(self).spec_input_dispatcher().spec_event_count() + 1,
            r is Ok ==> match event {
                InputEvent::Touch(_) => final(self).spec_input_handler().spec_touch_count() == old(self).spec_input_handler().spec_touch_count() + 1 && final(self).spec_input_handler().spec_key_count() == old(self).spec_input_handler().spec_key_count(),
                InputEvent::Key(_) => final(self).spec_input_handler().spec_key_count() == old(self).spec_input_handler().spec_key_count() + 1 && final(self).spec_input_handler().spec_touch_count() == old(self).spec_input_handler().spec_touch_count(),
            },
            r is Err ==> *final(self) == *old(self),
            final(self).spec_state() == old(self).spec_state(),
    {
        if self.state != SessionState::Active {
            return Err(MediaError::Session("Session is not active".to_string()));
        }
        self.input_dispatcher.dispatch(&event)?;
        match &event {
            InputEvent::Touch(touch) => self.input_handler.handle_touch(touch)?,
            InputEvent::Key(key) => self.input_handler.handle_key(key)?,
        }
        self.total_input_events = self.total_input_events + 1;
        Ok(())
    }

    pub fn total_video_frames(&self) -> (r: u64)
        ensures
            r == self.spec_total_video_frames(),
    {
        self.total_video_frames
    }

    pub fn total_audio_frames(&self) -> (r: u64)
        ensures
            r == self.spec_total_audio_frames(),
    {
        self.total_audio_frames
    }

    pub fn total_input_events(&self) -> (r: u64)
        ensures
            r == self.spec_total_input_events(),
    {
        self.total_input_events
    }
}

impl Default for MirroringSession {
    fn default() -> (r: Self)
        ensures
            r.generators_match_config(),
            r.spec_state() == SessionState::Idle,
            r.spec_config() is None,
            r.spec_total_video_frames() == 0,
            r.spec_total_audio_frames() == 0,
            r.spec_total_input_events() == 0,
    {
        Self::new()
    }
}

} // verus!
