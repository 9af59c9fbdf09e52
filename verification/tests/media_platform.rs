use mmc::media::input::{DefaultInputHandler, InputDispatcher, InputEvent, InputHandler};
use mmc::media::platform::{
    AudioRecorder, DefaultPlatformAdapter, InputInjector, MockAudioRecorder, MockInputInjector,
    MockScreenCapturer, PlatformType, ScreenCapturer,
};
use mmc::media::platform_android::{AndroidInputInjector, AndroidScreenCapturer};
use mmc::media::platform_windows::{WindowsAudioRecorder, WindowsInputInjector, WindowsScreenCapturer};
use mmc::protocol::{KeyEvent, KeyEventType, PixelFormat, SampleFormat, TouchEvent, TouchType};

#[test]
fn test_platform_type_display() {
    assert_eq!(PlatformType::Android.to_string(), "Android");
    assert_eq!(PlatformType::Ios.to_string(), "iOS");
    assert_eq!(PlatformType::Windows.to_string(), "Windows");
    assert_eq!(PlatformType::Macos.to_string(), "macOS");
    assert_eq!(PlatformType::Linux.to_string(), "Linux");
    assert_eq!(PlatformType::Unknown.to_string(), "Unknown");
}

#[test]
fn test_audio_info() {
    let adapter = DefaultPlatformAdapter::new(PlatformType::Android);
    let info = adapter.get_audio_info().unwrap();
    assert_eq!(info.sample_rate, 44100);
    assert_eq!(info.channels, 2);
    assert_eq!(info.buffer_size, 1024);
}

#[test]
fn test_screen_capturer_arc() {
    let _adapter = DefaultPlatformAdapter::new(PlatformType::Android);
    let mut capturer = MockScreenCapturer::new();
    capturer.start().unwrap();
    assert!(capturer.is_running());
}

#[test]
fn test_audio_recorder_arc() {
    let _adapter = DefaultPlatformAdapter::new(PlatformType::Android);
    let mut recorder = MockAudioRecorder::new();
    recorder.start().unwrap();
    assert!(recorder.is_recording());
}

#[test]
fn test_platform_default_audio_info() {
    for platform in [
        PlatformType::Android,
        PlatformType::Ios,
        PlatformType::Windows,
        PlatformType::Macos,
        PlatformType::Linux,
        PlatformType::Unknown,
    ] {
        let info = DefaultPlatformAdapter::default_audio_info(platform);
        assert!(info.sample_rate > 0);
        assert!(info.channels > 0);
        assert!(info.buffer_size > 0);
    }
}

#[test]
fn test_default_platform_adapter_new() {
    let adapter = DefaultPlatformAdapter::new(PlatformType::Android);
    assert_eq!(adapter.platform_type(), PlatformType::Android);
    assert!(adapter.screen_capturer().is_some());
    assert!(adapter.audio_recorder().is_some());
    assert!(adapter.input_injector().is_some());
}

#[test]
fn desktop_audio_defaults() {
    let info = DefaultPlatformAdapter::default_audio_info(PlatformType::Linux);
    assert_eq!(info.sample_rate, 48000);
    assert_eq!(info.buffer_size, 2048);
}

#[test]
fn platform_from_os_names() {
    assert_eq!(PlatformType::from_os_name("linux"), PlatformType::Linux);
    assert_eq!(PlatformType::from_os_name("macos"), PlatformType::Macos);
    assert_eq!(PlatformType::from_os_name("freebsd"), PlatformType::Unknown);
}

#[test]
fn mock_capturer_frames() {
    let mut capturer = MockScreenCapturer::new();
    assert!(capturer.capture_frame().is_err());
    capturer.start().unwrap();
    let frame = capturer.capture_frame().unwrap();
    assert_eq!(frame.width, 1080);
    assert_eq!(frame.height, 1920);
    assert_eq!(frame.sequence_id, 1);
    assert!(frame.is_keyframe);
    assert_eq!(&frame.data[0..3], &[1, 2, 3]);
    capturer.stop().unwrap();
    assert!(capturer.capture_frame().is_err());
}

#[test]
fn mock_injector_accepts_events() {
    let mut injector = MockInputInjector;
    let key = KeyEvent { sequence_id: 1, timestamp_ms: 1000, key_type: KeyEventType::Down, key_code: 65, text: None };
    assert!(injector.inject_key(&key).is_ok());
}

#[test]
fn platform_android_test_android_screen_capturer_new() {
    let capturer = AndroidScreenCapturer::new(1080, 1920);
    assert!(!capturer.is_running());
}

#[test]
fn test_android_screen_capturer_request_permission() {
    let capturer = AndroidScreenCapturer::new(100, 100);
    assert!(!capturer.request_permission());
}

#[test]
fn platform_android_test_android_input_injector_new() {
    let injector = AndroidInputInjector::new();
    assert!(!injector.is_enabled());
}

#[test]
fn test_android_input_injector_enable() {
    let injector = AndroidInputInjector::new();
    assert!(!injector.enable());
}

#[test]
fn platform_android_test_android_input_injector_key_not_enabled() {
    let mut injector = AndroidInputInjector::new();
    let key = KeyEvent { sequence_id: 1, timestamp_ms: 1000, key_type: KeyEventType::Down, key_code: 65, text: None };
    assert!(injector.inject_key(&key).is_err());
}

#[test]
fn platform_android_test_android_input_injector_disable() {
    let mut injector = AndroidInputInjector::new();
    injector.disable();
    assert!(!injector.is_enabled());
}

#[test]
fn platform_android_test_input_injector_counts() {
    let injector = AndroidInputInjector::new();
    assert_eq!(injector.injected_touch_count(), 0);
    assert_eq!(injector.injected_key_count(), 0);
}

#[test]
fn android_capture_requires_start() {
    let mut capturer = AndroidScreenCapturer::new(100, 100);
    assert!(capturer.capture_frame().is_err());
    capturer.start().unwrap();
    assert!(capturer.is_running());
    let frame = capturer.capture_frame().unwrap();
    assert_eq!(frame.width, 100);
    assert_eq!(frame.height, 100);
    assert_eq!(frame.data.len(), 100 * 100 * 4);
    capturer.stop().unwrap();
    assert!(!capturer.is_running());
}

#[test]
fn android_touch_without_enable_fails() {
    let mut injector = AndroidInputInjector::new();
    let touch = TouchEvent {
        sequence_id: 1,
        timestamp_ms: 1000,
        touch_type: TouchType::Down,
        x_bits: 100.0f32.to_bits(),
        y_bits: 200.0f32.to_bits(),
        pressure_bits: 1.0f32.to_bits(),
        touch_major_bits: 1.0f32.to_bits(),
        pointer_id: 0,
    };
    assert!(injector.inject_touch(&touch).is_err());
    assert_eq!(injector.injected_touch_count(), 0);
}

#[test]
fn test_windows_screen_capturer_creation() {
    let capturer = WindowsScreenCapturer::new();
    assert!(capturer.width() > 0);
    assert!(capturer.height() > 0);
}

#[test]
fn test_windows_screen_capturer_default() {
    let capturer = WindowsScreenCapturer::default();
    assert!(capturer.width() > 0);
}

#[test]
fn test_windows_input_injector_creation() {
    let injector = WindowsInputInjector::new();
    let (w, h) = injector.screen_size();
    assert_eq!(w, 1920);
    assert_eq!(h, 1080);
}

#[test]
fn test_windows_input_injector_default() {
    let injector = WindowsInputInjector::default();
    let (w, h) = injector.screen_size();
    assert_eq!(w, 1920);
    assert_eq!(h, 1080);
}

#[test]
fn test_windows_audio_recorder_creation() {
    let recorder = WindowsAudioRecorder::new();
    assert!(!recorder.is_recording());
    assert_eq!(recorder.sample_rate(), 48000);
    assert_eq!(recorder.channels(), 2);
}

#[test]
fn test_windows_audio_recorder_default() {
    let recorder = WindowsAudioRecorder::default();
    assert!(!recorder.is_recording());
}

#[test]
fn test_screen_capturer_start_stop() {
    let mut capturer = WindowsScreenCapturer::new();
    assert!(!capturer.is_running());
    capturer.start().unwrap();
    assert!(capturer.is_running());
    capturer.stop().unwrap();
    assert!(!capturer.is_running());
}

#[test]
fn test_audio_recorder_start_stop() {
    let mut recorder = WindowsAudioRecorder::new();
    recorder.start().unwrap();
    assert!(recorder.is_recording());
    recorder.stop().unwrap();
    assert!(!recorder.is_recording());
}

#[test]
fn test_key_event_injection() {
    let mut injector = WindowsInputInjector::new();
    let event = KeyEvent { sequence_id: 1, timestamp_ms: 1000, key_type: KeyEventType::Down, key_code: 0x41, text: None };
    assert!(injector.inject_key(&event).is_ok());
    assert_eq!(injector.key_injection_count(), 1);
}

#[test]
fn test_key_event_injection_multiple_types() {
    let mut injector = WindowsInputInjector::new();
    let down_event = KeyEvent { sequence_id: 1, timestamp_ms: 1000, key_type: KeyEventType::Down, key_code: 0x41, text: None };
    assert!(injector.inject_key(&down_event).is_ok());
    let up_event = KeyEvent { sequence_id: 2, timestamp_ms: 1001, key_type: KeyEventType::Up, key_code: 0x41, text: None };
    assert!(injector.inject_key(&up_event).is_ok());
    let text_event = KeyEvent {
        sequence_id: 3,
        timestamp_ms: 1002,
        key_type: KeyEventType::Text,
        key_code: 0,
        text: Some("Hello".to_string()),
    };
    assert!(injector.inject_key(&text_event).is_ok());
    assert_eq!(injector.key_injection_count(), 3);
}

#[test]
fn windows_capture_and_record_frames() {
    let mut capturer = WindowsScreenCapturer::new();
    assert!(capturer.capture_frame().is_err());
    capturer.start().unwrap();
    let frame = capturer.capture_frame().unwrap();
    assert_eq!(frame.pixel_format, PixelFormat::Bgra8888);
    assert_eq!(frame.sequence_id, 1);
    assert!(frame.is_keyframe);
    assert_eq!(&frame.data[0..2], &[0, 1]);
    let frame2 = capturer.capture_frame().unwrap();
    assert!(frame2.sequence_id > frame.sequence_id);

    let mut recorder = WindowsAudioRecorder::new();
    assert!(recorder.record_frame().is_err());
    recorder.start().unwrap();
    for i in 1..=3u64 {
        let f = recorder.record_frame().unwrap();
        assert_eq!(f.sequence_id, i);
        assert_eq!(f.sample_format, SampleFormat::S16);
        assert_eq!(f.data.len(), 2048 * 2 * 2);
        assert_eq!(&f.data[0..4], &[i as u8, 0, i as u8 + 1, 0]);
    }
}

#[test]
fn test_input_dispatcher_new() {
    let dispatcher = InputDispatcher::new();
    assert_eq!(dispatcher.event_count(), 0);
}

#[test]
fn test_create_key_event() {
    let dispatcher = InputDispatcher::new();
    let event = dispatcher.create_key_event(10, KeyEventType::Text, 0, Some("Hello".to_string()));
    assert_eq!(event.sequence_id, 10);
    assert_eq!(event.key_type, KeyEventType::Text);
    assert_eq!(event.key_code, 0);
    assert_eq!(event.text, Some("Hello".to_string()));
    assert!(event.timestamp_ms > 0);
}

#[test]
fn dispatch_counts_touch_and_key_events() {
    let mut dispatcher = InputDispatcher::new();
    let mut handler = DefaultInputHandler::new();
    let touch = dispatcher.create_touch_event(1, TouchType::Down, 100.0f32.to_bits(), 200.0f32.to_bits());
    assert_eq!(f32::from_bits(touch.pressure_bits), 1.0);
    dispatcher.dispatch_to_handler(&InputEvent::Touch(touch), &mut handler).unwrap();
    let key = dispatcher.create_key_event(2, KeyEventType::Down, 65, None);
    dispatcher.dispatch_to_handler(&InputEvent::Key(key.clone()), &mut handler).unwrap();
    handler.handle_key(&key).unwrap();
    dispatcher.dispatch(&InputEvent::Key(key)).unwrap();
    assert_eq!(dispatcher.event_count(), 3);
    assert_eq!(handler.touch_count(), 1);
    assert_eq!(handler.key_count(), 2);
}

fn touch(sequence_id: u64, touch_type: TouchType, x: f32, y: f32, pressure: f32, touch_major: f32) -> TouchEvent {
    TouchEvent {
        sequence_id,
        timestamp_ms: 1000,
        touch_type,
        x_bits: x.to_bits(),
        y_bits: y.to_bits(),
        pressure_bits: pressure.to_bits(),
        touch_major_bits: touch_major.to_bits(),
        pointer_id: 0,
    }
}

#[test]
fn test_dispatch_touch_event() {
    let mut dispatcher = InputDispatcher::new();
    let mut handler = DefaultInputHandler::new();
    let event = InputEvent::Touch(touch(1, TouchType::Down, 100.0, 200.0, 0.8, 5.0));
    dispatcher.dispatch_to_handler(&event, &mut handler).unwrap();
    assert_eq!(dispatcher.event_count(), 1);
    assert_eq!(handler.touch_count(), 1);
    assert_eq!(handler.key_count(), 0);
}

#[test]
fn test_dispatch_key_event() {
    let mut dispatcher = InputDispatcher::new();
    let mut handler = DefaultInputHandler::new();
    let key = KeyEvent { sequence_id: 1, timestamp_ms: 1000, key_type: KeyEventType::Down, key_code: 65, text: None };
    dispatcher.dispatch_to_handler(&InputEvent::Key(key), &mut handler).unwrap();
    assert_eq!(dispatcher.event_count(), 1);
    assert_eq!(handler.key_count(), 1);
    assert_eq!(handler.touch_count(), 0);
}

#[test]
fn test_multiple_events() {
    let mut dispatcher = InputDispatcher::new();
    let mut handler = DefaultInputHandler::new();
    for i in 1..=5u64 {
        let mut t = touch(i, TouchType::Move, i as f32 * 10.0, i as f32 * 20.0, 1.0, 5.0);
        t.timestamp_ms = 1000 + i;
        dispatcher.dispatch_to_handler(&InputEvent::Touch(t), &mut handler).unwrap();
    }
    for i in 1..=3u64 {
        let key = KeyEvent {
            sequence_id: i,
            timestamp_ms: 2000 + i,
            key_type: KeyEventType::Down,
            key_code: 65 + i as i32,
            text: None,
        };
        dispatcher.dispatch_to_handler(&InputEvent::Key(key), &mut handler).unwrap();
    }
    assert_eq!(dispatcher.event_count(), 8);
    assert_eq!(handler.touch_count(), 5);
    assert_eq!(handler.key_count(), 3);
}

#[test]
fn test_dispatch_basic() {
    let mut dispatcher = InputDispatcher::new();
    let event = InputEvent::Touch(touch(1, TouchType::Up, 100.0, 100.0, 0.0, 1.0));
    dispatcher.dispatch(&event).unwrap();
    assert_eq!(dispatcher.event_count(), 1);
}

#[test]
fn test_create_touch_event() {
    let dispatcher = InputDispatcher::new();
    let event = dispatcher.create_touch_event(42, TouchType::Down, 320.0f32.to_bits(), 480.0f32.to_bits());
    assert_eq!(event.sequence_id, 42);
    assert_eq!(event.touch_type, TouchType::Down);
    assert_eq!(f32::from_bits(event.x_bits), 320.0);
    assert_eq!(f32::from_bits(event.y_bits), 480.0);
    assert!(event.timestamp_ms > 0);
}

#[test]
fn test_default_input_handler() {
    let mut handler = DefaultInputHandler::new();
    handler.handle_touch(&touch(1, TouchType::Down, 10.0, 20.0, 1.0, 1.0)).unwrap();
    let key = KeyEvent { sequence_id: 1, timestamp_ms: 1000, key_type: KeyEventType::Down, key_code: 32, text: None };
    handler.handle_key(&key).unwrap();
    assert_eq!(handler.touch_count(), 1);
    assert_eq!(handler.key_count(), 1);
}

#[test]
fn test_touch_type_variants() {
    let types = [TouchType::Down, TouchType::Move, TouchType::Up, TouchType::Cancel];
    for t in types.iter() {
        let mut handler = DefaultInputHandler::new();
        let event = InputEvent::Touch(touch(1, *t, 0.0, 0.0, 1.0, 1.0));
        let mut dispatcher = InputDispatcher::new();
        dispatcher.dispatch_to_handler(&event, &mut handler).unwrap();
    }
}

#[test]
fn test_key_event_type_variants() {
    let types = [KeyEventType::Down, KeyEventType::Up, KeyEventType::Text];
    for t in types.iter() {
        let key = KeyEvent {
            sequence_id: 1,
            timestamp_ms: 1000,
            key_type: *t,
            key_code: 65,
            text: match t {
                KeyEventType::Text => Some("A".to_string()),
                _ => None,
            },
        };
        let mut handler = DefaultInputHandler::new();
        let mut dispatcher = InputDispatcher::new();
        dispatcher.dispatch_to_handler(&InputEvent::Key(key), &mut handler).unwrap();
    }
}

#[test]
fn test_touch_sequence_flow() {
    let mut dispatcher = InputDispatcher::new();
    let mut handler = DefaultInputHandler::new();
    let positions = [(100.0f32, 200.0f32), (110.0, 205.0), (120.0, 210.0)];
    let down = dispatcher.create_touch_event(1, TouchType::Down, positions[0].0.to_bits(), positions[0].1.to_bits());
    dispatcher.dispatch_to_handler(&InputEvent::Touch(down), &mut handler).unwrap();
    for (i, pos) in positions[1..].iter().enumerate() {
        let move_event = dispatcher.create_touch_event((i + 2) as u64, TouchType::Move, pos.0.to_bits(), pos.1.to_bits());
        dispatcher.dispatch_to_handler(&InputEvent::Touch(move_event), &mut handler).unwrap();
    }
    let up = dispatcher.create_touch_event(
        positions.len() as u64 + 1,
        TouchType::Up,
        positions[2].0.to_bits(),
        positions[2].1.to_bits(),
    );
    dispatcher.dispatch_to_handler(&InputEvent::Touch(up), &mut handler).unwrap();
    assert_eq!(handler.touch_count(), positions.len() as u64 + 1);
    assert_eq!(dispatcher.event_count(), positions.len() as u64 + 1);
}

#[test]
fn test_touch_event_builder() {
    let event = mmc::media::input::TouchEventBuilder::new()
        .sequence_id(42)
        .touch_type(TouchType::Down)
        .position(500.0f32.to_bits(), 300.0f32.to_bits())
        .pressure(0.9f32.to_bits())
        .build();
    assert_eq!(event.sequence_id, 42);
    assert_eq!(event.touch_type, TouchType::Down);
    assert_eq!(f32::from_bits(event.x_bits), 500.0);
    assert_eq!(f32::from_bits(event.y_bits), 300.0);
    assert_eq!(f32::from_bits(event.pressure_bits), 0.9);
}

#[test]
fn test_mock_screen_capturer() {
    let mut capturer = MockScreenCapturer::new();
    assert!(!capturer.is_running());
    capturer.start().unwrap();
    assert!(capturer.is_running());
    let frame = capturer.capture_frame().unwrap();
    assert_eq!(frame.width, 1080);
    assert_eq!(frame.height, 1920);
    assert!(!frame.data.is_empty());
    capturer.stop().unwrap();
    assert!(!capturer.is_running());
    assert!(capturer.capture_frame().is_err());
}

/// The mock recorder's 440 Hz tone at 44.1 kHz: 1024 stereo 16-bit samples
/// from sample `start` on.
fn mock_tone(start: u64) -> Vec<u8> {
    let mut data = Vec::new();
    for i in 0..2048u64 {
        let t = (start + i) as f64 / 44100.0;
        let sample = (2.0 * std::f64::consts::PI * 440.0 * t).sin();
        data.extend_from_slice(&((sample * 32767.0) as i16).to_le_bytes());
    }
    data
}

#[test]
fn test_mock_audio_recorder() {
    let mut recorder = MockAudioRecorder::new();
    assert!(!recorder.is_recording());
    recorder.start().unwrap();
    assert!(recorder.is_recording());
    let frame = recorder.assemble_frame(mock_tone(recorder.sample_counter())).unwrap();
    assert_eq!(frame.sample_rate, 44100);
    assert_eq!(frame.channels, 2);
    assert!(!frame.data.is_empty());
    recorder.stop().unwrap();
    assert!(!recorder.is_recording());
    assert!(recorder.assemble_frame(mock_tone(recorder.sample_counter())).is_err());
}

#[test]
fn test_mock_input_injector() {
    let mut injector = MockInputInjector;
    assert!(injector.inject_touch(&touch(1, TouchType::Down, 100.0, 200.0, 1.0, 1.0)).is_ok());
    let key = KeyEvent { sequence_id: 1, timestamp_ms: 1000, key_type: KeyEventType::Down, key_code: 65, text: None };
    assert!(injector.inject_key(&key).is_ok());
}

#[test]
fn platform_android_test_android_screen_capturer_capture_not_running() {
    let mut capturer = AndroidScreenCapturer::new(100, 100);
    assert!(capturer.capture_frame().is_err());
}

#[test]
fn platform_android_test_android_screen_capturer_start_stop() {
    let mut capturer = AndroidScreenCapturer::new(100, 100);
    capturer.start().unwrap();
    assert!(capturer.is_running());
    capturer.stop().unwrap();
    assert!(!capturer.is_running());
}

#[test]
fn test_android_screen_capturer_capture_running() {
    let mut capturer = AndroidScreenCapturer::new(100, 100);
    capturer.start().unwrap();
    let frame = capturer.capture_frame().unwrap();
    assert_eq!(frame.width, 100);
    assert_eq!(frame.height, 100);
    assert!(!frame.data.is_empty());
    capturer.stop().unwrap();
}

#[test]
fn platform_android_test_android_input_injector_touch_not_enabled() {
    let mut injector = AndroidInputInjector::new();
    assert!(injector.inject_touch(&touch(1, TouchType::Down, 100.0, 200.0, 1.0, 1.0)).is_err());
}

#[test]
fn test_screen_capturer_capture_frame() {
    let mut capturer = WindowsScreenCapturer::new();
    assert!(capturer.capture_frame().is_err());
    capturer.start().unwrap();
    let frame = capturer.capture_frame().unwrap();
    assert_eq!(frame.width, capturer.width());
    assert_eq!(frame.height, capturer.height());
    assert_eq!(frame.pixel_format, PixelFormat::Bgra8888);
    assert!(!frame.data.is_empty());
    assert!(frame.sequence_id > 0);
    let frame2 = capturer.capture_frame().unwrap();
    assert!(frame2.sequence_id > frame.sequence_id);
    assert!(frame.is_keyframe);
}

#[test]
fn test_audio_recorder_record_frame() {
    let mut recorder = WindowsAudioRecorder::new();
    assert!(recorder.record_frame().is_err());
    recorder.start().unwrap();
    let frame = recorder.record_frame().unwrap();
    assert_eq!(frame.sample_rate, 48000);
    assert_eq!(frame.channels, 2);
    assert_eq!(frame.sample_format, SampleFormat::S16);
    assert!(!frame.data.is_empty());
    assert!(frame.sequence_id > 0);
    let frame2 = recorder.record_frame().unwrap();
    assert!(frame2.sequence_id > frame.sequence_id);
}

#[test]
fn test_touch_event_injection() {
    let mut injector = WindowsInputInjector::new();
    assert!(injector.inject_touch(&touch(1, TouchType::Down, 0.5, 0.5, 1.0, 1.0)).is_ok());
    assert_eq!(injector.touch_injection_count(), 1);
}

#[test]
fn test_touch_event_injection_multiple_types() {
    let mut injector = WindowsInputInjector::new();
    assert!(injector.inject_touch(&touch(1, TouchType::Down, 0.5, 0.5, 1.0, 1.0)).is_ok());
    let mut m = touch(2, TouchType::Move, 0.6, 0.6, 1.0, 1.0);
    m.timestamp_ms = 1005;
    assert!(injector.inject_touch(&m).is_ok());
    let mut u = touch(3, TouchType::Up, 0.6, 0.6, 0.0, 0.0);
    u.timestamp_ms = 1010;
    assert!(injector.inject_touch(&u).is_ok());
    assert_eq!(injector.touch_injection_count(), 3);
}

#[test]
fn test_all_platform_types_have_adapters() {
    let platforms = [
        PlatformType::Android,
        PlatformType::Ios,
        PlatformType::Windows,
        PlatformType::Macos,
        PlatformType::Linux,
        PlatformType::Unknown,
    ];
    for platform in platforms {
        let adapter = DefaultPlatformAdapter::new(platform);
        assert!(adapter.screen_capturer().is_some(), "Platform {:?} should have screen capturer", platform);
        assert!(adapter.audio_recorder().is_some(), "Platform {:?} should have audio recorder", platform);
        assert!(adapter.input_injector().is_some(), "Platform {:?} should have input injector", platform);
    }
}

#[test]
fn platform_test_display_info() {
    let adapter = DefaultPlatformAdapter::new(PlatformType::Android);
    let info = adapter.get_display_info().unwrap();
    assert_eq!(info.width, 1080);
    assert_eq!(info.height, 1920);
    assert_eq!(f32::from_bits(info.density_bits), 2.0);
    assert_eq!(info.refresh_rate, 60);
    assert_eq!(info.rotation, 0);
}

#[test]
fn test_android_platform_adapter() {
    let adapter = DefaultPlatformAdapter::new(PlatformType::Android);
    assert_eq!(adapter.platform_type(), PlatformType::Android);
    let display = adapter.get_display_info().unwrap();
    assert_eq!(display.width, 1080);
    assert_eq!(display.height, 1920);
    assert_eq!(f32::from_bits(display.density_bits), 2.0);
    let audio = adapter.get_audio_info().unwrap();
    assert_eq!(audio.sample_rate, 44100);
}

#[test]
fn test_ios_platform_adapter() {
    let adapter = DefaultPlatformAdapter::new(PlatformType::Ios);
    assert_eq!(adapter.platform_type(), PlatformType::Ios);
    let display = adapter.get_display_info().unwrap();
    assert_eq!(display.width, 1170);
    assert_eq!(display.height, 2532);
    assert_eq!(f32::from_bits(display.density_bits), 3.0);
    assert_eq!(display.refresh_rate, 120);
    let audio = adapter.get_audio_info().unwrap();
    assert_eq!(audio.sample_rate, 44100);
}

#[test]
fn test_windows_platform_adapter() {
    let adapter = DefaultPlatformAdapter::new(PlatformType::Windows);
    assert_eq!(adapter.platform_type(), PlatformType::Windows);
    let display = adapter.get_display_info().unwrap();
    assert_eq!(display.width, 1920);
    assert_eq!(display.height, 1080);
    assert_eq!(f32::from_bits(display.density_bits), 1.0);
    let audio = adapter.get_audio_info().unwrap();
    assert_eq!(audio.sample_rate, 48000);
    assert_eq!(audio.buffer_size, 2048);
}

#[test]
fn test_macos_platform_adapter() {
    let adapter = DefaultPlatformAdapter::new(PlatformType::Macos);
    assert_eq!(adapter.platform_type(), PlatformType::Macos);
    let display = adapter.get_display_info().unwrap();
    assert_eq!(display.width, 2560);
    assert_eq!(display.height, 1600);
    assert_eq!(f32::from_bits(display.density_bits), 2.0);
    let audio = adapter.get_audio_info().unwrap();
    assert_eq!(audio.sample_rate, 48000);
}

#[test]
fn test_linux_platform_adapter() {
    let adapter = DefaultPlatformAdapter::new(PlatformType::Linux);
    assert_eq!(adapter.platform_type(), PlatformType::Linux);
    let display = adapter.get_display_info().unwrap();
    assert_eq!(display.width, 1920);
    assert_eq!(display.height, 1080);
    assert_eq!(f32::from_bits(display.density_bits), 1.0);
    let audio = adapter.get_audio_info().unwrap();
    assert_eq!(audio.sample_rate, 48000);
}

#[test]
fn test_platform_default_display_info() {
    for platform in [
        PlatformType::Android,
        PlatformType::Ios,
        PlatformType::Windows,
        PlatformType::Macos,
        PlatformType::Linux,
        PlatformType::Unknown,
    ] {
        let info = DefaultPlatformAdapter::default_display_info(platform);
        assert!(info.width > 0);
        assert!(info.height > 0);
        assert!(f32::from_bits(info.density_bits) > 0.0);
        assert!(info.refresh_rate > 0);
    }
}

#[test]
fn platform_windows_test_display_info() {
    let capturer = WindowsScreenCapturer::new();
    let info = capturer.get_display_info().unwrap();
    assert_eq!(info.width, capturer.width());
    assert_eq!(info.height, capturer.height());
    assert_eq!(f32::from_bits(info.density_bits), 1.0);
    assert_eq!(info.refresh_rate, 60);
}

#[test]
fn test_audio_recorder_multiple_frames() {
    let mut recorder = WindowsAudioRecorder::new();
    recorder.start().unwrap();
    for i in 1..=5u64 {
        let frame = recorder.record_frame().unwrap();
        assert_eq!(frame.sequence_id, i);
        assert_eq!(frame.sample_rate, 48000);
        assert_eq!(frame.channels, 2);
    }
}

#[test]
fn test_detect_platform() {
    for os in ["android", "ios", "windows", "macos", "linux", "freebsd"] {
        let platform = PlatformType::from_os_name(os);
        match platform {
            PlatformType::Android
            | PlatformType::Ios
            | PlatformType::Windows
            | PlatformType::Macos
            | PlatformType::Linux
            | PlatformType::Unknown => {}
        }
    }
    assert_eq!(PlatformType::from_os_name("linux"), PlatformType::Linux);
    assert_eq!(PlatformType::from_os_name("freebsd"), PlatformType::Unknown);
}

#[test]
fn android_injector_disabled_counts_nothing() {
    let mut injector = AndroidInputInjector::new();
    injector.disable();
    injector.disable();
    assert!(!injector.is_enabled());
    assert!(injector.inject_touch(&touch(1, TouchType::Down, 0.5, 0.5, 1.0, 1.0)).is_err());
    let key = KeyEvent { sequence_id: 2, timestamp_ms: 1000, key_type: KeyEventType::Down, key_code: 0x41, text: None };
    assert!(injector.inject_key(&key).is_err());
    assert_eq!(injector.injected_touch_count(), 0);
    assert_eq!(injector.injected_key_count(), 0);
}

#[test]
fn event_count_counts_mixed_dispatches() {
    let mut dispatcher = InputDispatcher::new();
    let mut handler = DefaultInputHandler::new();
    let mut expected = 0u64;
    for i in 0..12u64 {
        let event = if i % 3 == 0 {
            InputEvent::Key(KeyEvent { sequence_id: i, timestamp_ms: i, key_type: KeyEventType::Up, key_code: 1, text: None })
        } else {
            InputEvent::Touch(touch(i, TouchType::Down, 0.1, 0.2, 1.0, 1.0))
        };
        if i % 2 == 0 {
            dispatcher.dispatch(&event).unwrap();
        } else {
            dispatcher.dispatch_to_handler(&event, &mut handler).unwrap();
        }
        let _ = dispatcher.create_key_event(i, KeyEventType::Down, 2, None);
        expected += 1;
        assert_eq!(dispatcher.event_count(), expected);
    }
    assert_eq!(dispatcher.event_count(), 12);
    assert_eq!(handler.touch_count() + handler.key_count(), 6);
}
