use mmc::media::input::InputEvent;
use mmc::media::session::{MirroringSession, SessionConfig, SessionState};
use mmc::protocol::{KeyEvent, KeyEventType, PixelFormat, SampleFormat};

#[test]
fn test_session_new() {
    let session = MirroringSession::new();
    assert_eq!(session.state(), SessionState::Idle);
    assert!(!session.is_active());
    assert!(session.config().is_none());
}

#[test]
fn test_session_configure() {
    let mut session = MirroringSession::new();
    let config = SessionConfig::default();
    session.configure(config).unwrap();
    assert!(session.config().is_some());
}

#[test]
fn test_session_start_stop() {
    let mut session = MirroringSession::new();
    session.configure(SessionConfig::default()).unwrap();
    session.start().unwrap();
    assert!(session.is_active());
    assert_eq!(session.state(), SessionState::Active);
    session.stop().unwrap();
    assert!(!session.is_active());
}

#[test]
fn test_session_pause_resume() {
    let mut session = MirroringSession::new();
    session.configure(SessionConfig::default()).unwrap();
    session.start().unwrap();
    session.pause().unwrap();
    assert_eq!(session.state(), SessionState::Paused);
    session.resume().unwrap();
    assert_eq!(session.state(), SessionState::Active);
}

#[test]
fn test_pause_without_start() {
    let mut session = MirroringSession::new();
    session.configure(SessionConfig::default()).unwrap();
    assert!(session.pause().is_err());
}

#[test]
fn test_generate_video_frame() {
    let mut session = MirroringSession::new();
    session.configure(SessionConfig::default()).unwrap();
    session.start().unwrap();
    let frame = session.generate_video_frame().unwrap();
    assert_eq!(session.total_video_frames(), 1);
    assert!(frame.data.len() > 0);
}

#[test]
fn test_multiple_video_frames() {
    let mut session = MirroringSession::new();
    session.configure(SessionConfig::default()).unwrap();
    session.start().unwrap();
    for i in 1..=5 {
        let _frame = session.generate_video_frame().unwrap();
        assert_eq!(session.total_video_frames(), i);
    }
    assert_eq!(session.total_video_frames(), 5);
}

#[test]
fn test_generate_without_start() {
    let mut session = MirroringSession::new();
    session.configure(SessionConfig::default()).unwrap();
    assert!(session.generate_video_frame().is_err());
}

#[test]
fn test_new_with_config() {
    let mut session = MirroringSession::new_with_config(SessionConfig::default());
    session.start().unwrap();
    assert!(session.is_active());
}

#[test]
fn test_invalid_config() {
    let mut session = MirroringSession::new();
    let bad_config = SessionConfig {
        video_width: 0,
        video_height: 1080,
        video_format: PixelFormat::Rgba8888,
        frame_rate: 30,
        audio_sample_rate: 44100,
        audio_channels: 2,
        audio_format: SampleFormat::S16,
    };
    assert!(session.configure(bad_config).is_err());
}

#[test]
fn test_invalid_audio_config() {
    let mut session = MirroringSession::new();
    let bad_config = SessionConfig {
        video_width: 1920,
        video_height: 1080,
        video_format: PixelFormat::Rgba8888,
        frame_rate: 30,
        audio_sample_rate: 0,
        audio_channels: 2,
        audio_format: SampleFormat::S16,
    };
    assert!(session.configure(bad_config).is_err());
}

#[test]
fn test_double_start() {
    let mut session = MirroringSession::new();
    session.configure(SessionConfig::default()).unwrap();
    session.start().unwrap();
    session.start().unwrap();
    assert!(session.is_active());
}

#[test]
fn test_process_incoming_video_frame() {
    let mut session = MirroringSession::new();
    session.configure(SessionConfig::default()).unwrap();
    session.start().unwrap();
    let frame = session.generate_video_frame().unwrap();
    session.process_incoming_video_frame(&frame).unwrap();
}

#[test]
fn test_session_state_display() {
    assert_eq!(SessionState::Idle.to_string(), "Idle");
    assert_eq!(SessionState::Active.to_string(), "Active");
    assert_eq!(SessionState::Paused.to_string(), "Paused");
}

#[test]
fn start_without_config_fails() {
    let mut session = MirroringSession::new();
    assert!(session.start().is_err());
    assert_eq!(session.state(), SessionState::Idle);
}

#[test]
fn resume_requires_pause() {
    let mut session = MirroringSession::new_with_config(SessionConfig::default());
    session.start().unwrap();
    assert!(session.resume().is_err());
    assert_eq!(session.state(), SessionState::Active);
}

#[test]
fn reconfigure_active_session_fails() {
    let mut session = MirroringSession::new_with_config(SessionConfig::default());
    session.start().unwrap();
    assert!(session.configure(SessionConfig::default()).is_err());
}

#[test]
fn zero_channels_are_rejected() {
    let mut session = MirroringSession::new();
    let mut config = SessionConfig::default();
    config.audio_channels = 0;
    assert!(session.configure(config).is_err());
    assert!(session.config().is_none());
}

#[test]
fn key_event_is_counted_in_active_session() {
    let mut session = MirroringSession::new_with_config(SessionConfig::default());
    let key = KeyEvent { sequence_id: 1, timestamp_ms: 1, key_type: KeyEventType::Down, key_code: 65, text: None };
    assert!(session.handle_input_event(InputEvent::Key(key.clone())).is_err());
    session.start().unwrap();
    session.handle_input_event(InputEvent::Key(key)).unwrap();
    assert_eq!(session.total_input_events(), 1);
}

#[test]
fn audio_frames_are_assembled_from_samples() {
    let mut session = MirroringSession::new_with_config(SessionConfig::default());
    session.start().unwrap();
    let len = session.audio_generator().unwrap().frame_len(16);
    assert_eq!(len, 64);
    let frame = session.assemble_audio_frame(16, vec![7u8; 64]).unwrap();
    assert_eq!(session.total_audio_frames(), 1);
    assert_eq!(frame.sequence_id, 1);
    session.process_incoming_audio_frame(&frame).unwrap();
}

/// The 440 Hz sine tone the session's next audio frame carries (the
/// floating-point synthesis runs here; the session assembles the frame).
fn sine_tone(session: &MirroringSession, samples_per_channel: u32) -> Vec<u8> {
    let generator = session.audio_generator().unwrap();
    let total = (samples_per_channel * generator.channels()) as usize;
    let mut data = Vec::new();
    for i in 0..total {
        let t = ((generator.sample_counter() + i as u64) as f64) / generator.sample_rate() as f64;
        let sample = (2.0 * std::f64::consts::PI * 440.0 * t).sin();
        match generator.sample_format() {
            SampleFormat::U8 => data.push(((sample * 127.0) + 128.0) as u8),
            SampleFormat::S16 => data.extend_from_slice(&((sample * 32767.0) as i16).to_le_bytes()),
            SampleFormat::S32 => data.extend_from_slice(&((sample * 2147483647.0) as i32).to_le_bytes()),
            SampleFormat::F32 => data.extend_from_slice(&(sample as f32).to_le_bytes()),
            _ => data.extend_from_slice(&[0u8, 0u8]),
        }
    }
    data
}

#[test]
fn test_generate_audio_frame() {
    let mut session = MirroringSession::new();
    session.configure(SessionConfig::default()).unwrap();
    session.start().unwrap();
    let data = sine_tone(&session, 1024);
    let frame = session.assemble_audio_frame(1024, data).unwrap();
    assert_eq!(session.total_audio_frames(), 1);
    assert!(frame.data.len() > 0);
}

#[test]
fn session_test_process_incoming_audio_frame() {
    let mut session = MirroringSession::new();
    session.configure(SessionConfig::default()).unwrap();
    session.start().unwrap();
    let data = sine_tone(&session, 1024);
    let frame = session.assemble_audio_frame(1024, data).unwrap();
    session.process_incoming_audio_frame(&frame).unwrap();
}

#[test]
fn test_handle_input_event() {
    let mut session = MirroringSession::new();
    session.configure(SessionConfig::default()).unwrap();
    session.start().unwrap();
    let touch = mmc::protocol::TouchEvent {
        sequence_id: 1,
        timestamp_ms: 1000,
        touch_type: mmc::protocol::TouchType::Down,
        x_bits: 100.0f32.to_bits(),
        y_bits: 200.0f32.to_bits(),
        pressure_bits: 1.0f32.to_bits(),
        touch_major_bits: 1.0f32.to_bits(),
        pointer_id: 0,
    };
    session.handle_input_event(InputEvent::Touch(touch)).unwrap();
    assert_eq!(session.total_input_events(), 1);
}
