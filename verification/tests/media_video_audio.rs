use mmc::media::audio::{AudioFrameGenerator, AudioProcessor};
use mmc::media::video::{VideoFrameGenerator, VideoProcessor};
use mmc::protocol::{AudioConfig, AudioFrame, PixelFormat, SampleFormat, VideoConfig};

#[test]
fn test_video_frame_generator_new() {
    let generator = VideoFrameGenerator::new(640, 480, PixelFormat::Rgba8888);
    assert_eq!(generator.width(), 640);
    assert_eq!(generator.height(), 480);
    assert_eq!(generator.pixel_format(), PixelFormat::Rgba8888);
}

#[test]
fn test_generate_frame_rgba() {
    let mut generator = VideoFrameGenerator::new(320, 240, PixelFormat::Rgba8888);
    let frame = generator.generate_frame().unwrap();
    assert_eq!(frame.width, 320);
    assert_eq!(frame.height, 240);
    assert_eq!(frame.pixel_format, PixelFormat::Rgba8888);
    assert_eq!(frame.data.len(), (320 * 240 * 4) as usize);
}

#[test]
fn test_generate_frame_yuv420p() {
    let mut generator = VideoFrameGenerator::new(640, 480, PixelFormat::Yuv420p);
    let frame = generator.generate_frame().unwrap();
    assert_eq!(frame.width, 640);
    assert_eq!(frame.height, 480);
    assert_eq!(frame.pixel_format, PixelFormat::Yuv420p);
    let expected_size = (640 * 480 + 2 * 320 * 240) as usize;
    assert_eq!(frame.data.len(), expected_size);
}

#[test]
fn video_test_generate_test_frame() {
    let frame = VideoFrameGenerator::generate_test_frame(100, 100).unwrap();
    assert_eq!(frame.width, 100);
    assert_eq!(frame.height, 100);
    assert!(frame.is_keyframe);
    assert_eq!(frame.data.len(), 100 * 100 * 4);
}

#[test]
fn test_video_processor_new() {
    let processor = VideoProcessor::new();
    assert!(!processor.is_configured());
    assert_eq!(processor.frame_count(), 0);
}

fn video_config(width: u32, height: u32, bitrate: u32) -> VideoConfig {
    VideoConfig {
        width,
        height,
        pixel_format: PixelFormat::Rgba8888,
        frame_rate: 30,
        codec: "raw".to_string(),
        bitrate,
    }
}

#[test]
fn test_video_processor_configure() {
    let mut processor = VideoProcessor::new();
    processor.configure(video_config(1920, 1080, 5000000)).unwrap();
    assert!(processor.is_configured());
}

#[test]
fn test_video_processor_invalid_config() {
    let mut processor = VideoProcessor::new();
    assert!(processor.configure(video_config(0, 1080, 5000000)).is_err());
}

#[test]
fn test_process_incoming_frame() {
    let mut processor = VideoProcessor::new();
    processor.configure(video_config(640, 480, 1000000)).unwrap();
    let frame = VideoFrameGenerator::generate_test_frame(640, 480).unwrap();
    processor.process_incoming_frame(&frame).unwrap();
    assert_eq!(processor.frame_count(), 1);
}

#[test]
fn test_process_outgoing_frame() {
    let mut processor = VideoProcessor::new();
    processor.configure(video_config(640, 480, 1000000)).unwrap();
    let mut frame = VideoFrameGenerator::generate_test_frame(640, 480).unwrap();
    frame.timestamp_ms = 0;
    processor.process_outgoing_frame(&mut frame).unwrap();
    assert!(frame.timestamp_ms > 0);
    assert_eq!(processor.frame_count(), 1);
}

#[test]
fn video_test_process_frame_without_config() {
    let mut processor = VideoProcessor::new();
    let frame = VideoFrameGenerator::generate_test_frame(640, 480).unwrap();
    assert!(processor.process_incoming_frame(&frame).is_err());
}

#[test]
fn test_multiple_frames_sequence() {
    let mut generator = VideoFrameGenerator::new(320, 240, PixelFormat::Rgba8888);
    let f1 = generator.generate_frame().unwrap();
    let f2 = generator.generate_frame().unwrap();
    assert!(f2.sequence_id > f1.sequence_id);
}

#[test]
fn test_pixel_format_variants() {
    for format in [PixelFormat::Rgba8888, PixelFormat::Bgra8888, PixelFormat::Rgb565, PixelFormat::Yuv420p, PixelFormat::Nv12].iter() {
        let mut generator = VideoFrameGenerator::new(100, 100, *format);
        let frame = generator.generate_frame().unwrap();
        assert_eq!(frame.pixel_format, *format);
        assert!(!frame.data.is_empty());
    }
}

#[test]
fn generated_frames_are_shifted_gradients() {
    let mut generator = VideoFrameGenerator::new(2, 1, PixelFormat::Rgb565);
    let f1 = generator.generate_frame().unwrap();
    assert_eq!(f1.data, vec![0, 1, 2, 3]);
    assert_eq!(f1.sequence_id, 1);
    assert!(f1.is_keyframe);
    let f2 = generator.generate_frame().unwrap();
    assert_eq!(f2.data, vec![1, 2, 3, 4]);
    assert!(!f2.is_keyframe);
}

#[test]
fn yuv_chroma_planes_are_zero() {
    let mut generator = VideoFrameGenerator::new(4, 2, PixelFormat::Nv12);
    let f = generator.generate_frame().unwrap();
    assert_eq!(f.data, vec![0, 1, 2, 3, 4, 5, 6, 7, 0, 0, 0, 0]);
}

#[test]
fn test_pattern_pixels() {
    let f = VideoFrameGenerator::generate_test_frame(2, 2).unwrap();
    assert_eq!(f.data, vec![0, 0, 0, 255, 1, 0, 1, 255, 0, 1, 1, 255, 1, 1, 2, 255]);
}

#[test]
fn outgoing_frame_keeps_existing_timestamp() {
    let mut processor = VideoProcessor::new();
    processor.configure(video_config(2, 2, 1)).unwrap();
    let mut frame = VideoFrameGenerator::generate_test_frame(2, 2).unwrap();
    frame.timestamp_ms = 77;
    processor.process_outgoing_frame(&mut frame).unwrap();
    assert_eq!(frame.timestamp_ms, 77);
}

#[test]
fn test_audio_frame_generator_new() {
    let generator = AudioFrameGenerator::new(44100, 2, SampleFormat::S16);
    assert_eq!(generator.sample_rate(), 44100);
    assert_eq!(generator.channels(), 2);
    assert_eq!(generator.sample_format(), SampleFormat::S16);
}

#[test]
fn test_audio_processor_new() {
    let processor = AudioProcessor::new();
    assert!(!processor.is_configured());
    assert_eq!(processor.frame_count(), 0);
}

fn audio_config(sample_rate: u32, channels: u32, sample_format: SampleFormat) -> AudioConfig {
    AudioConfig { sample_rate, channels, sample_format, codec: "pcm".to_string(), bitrate: 128000 }
}

#[test]
fn test_audio_processor_configure() {
    let mut processor = AudioProcessor::new();
    processor.configure(audio_config(44100, 2, SampleFormat::S16)).unwrap();
    assert!(processor.is_configured());
}

#[test]
fn test_audio_processor_invalid_config() {
    let mut processor = AudioProcessor::new();
    assert!(processor.configure(audio_config(0, 2, SampleFormat::S16)).is_err());
}

#[test]
fn audio_frame_assembly_advances_counters() {
    let mut generator = AudioFrameGenerator::new(48000, 1, SampleFormat::F32);
    assert_eq!(generator.frame_len(512), 2048);
    let f1 = generator.assemble_frame(512, vec![0u8; 2048]).unwrap();
    assert_eq!(f1.sequence_id, 1);
    assert_eq!(generator.sample_counter(), 512);
    let f2 = generator.assemble_frame(512, vec![1u8; 2048]).unwrap();
    assert!(f2.sequence_id > f1.sequence_id);
    assert_eq!(f2.sample_rate, 48000);
    assert_eq!(f2.sample_format, SampleFormat::F32);
    assert_eq!(generator.sample_counter(), 1024);
}

#[test]
fn incoming_audio_counts_samples() {
    let mut processor = AudioProcessor::new();
    processor.configure(audio_config(44100, 2, SampleFormat::S16)).unwrap();
    let frame = AudioFrame {
        sequence_id: 1,
        timestamp_ms: 1,
        sample_rate: 44100,
        channels: 2,
        sample_format: SampleFormat::S32,
        data: vec![0u8; 10],
    };
    processor.process_incoming_frame(&frame).unwrap();
    assert_eq!(processor.frame_count(), 1);
    assert_eq!(processor.total_samples(), 2);
}

#[test]
fn incoming_audio_without_config_fails() {
    let mut processor = AudioProcessor::new();
    let frame = AudioFrame {
        sequence_id: 1,
        timestamp_ms: 1,
        sample_rate: 44100,
        channels: 2,
        sample_format: SampleFormat::S16,
        data: vec![0u8; 4],
    };
    assert!(processor.process_incoming_frame(&frame).is_err());
    assert_eq!(processor.frame_count(), 0);
}

/// The 440 Hz sine tone the generator's frames carry, sample by sample, for
/// the generator's position and format (the floating-point synthesis runs
/// here; the library assembles the frame).
fn sine_tone(generator: &AudioFrameGenerator, samples_per_channel: u32) -> Vec<u8> {
    let total = (samples_per_channel * generator.channels()) as usize;
    let mut data = Vec::new();
    for i in 0..total {
        let t = ((generator.sample_counter() + i as u64) as f64) / generator.sample_rate() as f64;
        let sample = (2.0 * std::f64::consts::PI * 440.0 * t).sin();
        match generator.sample_format() {
            SampleFormat::U8 => data.push(((sample * 127.0) + 128.0) as u8),
            SampleFormat::S16 => data.extend_from_slice(&((sample * 32767.0) as i16).to_le_bytes()),
            SampleFormat::S32 => data.extend_from_slice(&((sample * 2147483647.0) as i32).to_le_bytes()),
            SampleFormat::F32 => data.extend_from_slice(&(sample as f32).to_le_bytes()),
            _ => data.extend_from_slice(&[0u8, 0u8]),
        }
    }
    data
}

fn generate_frame(generator: &mut AudioFrameGenerator, samples_per_channel: u32) -> AudioFrame {
    let data = sine_tone(generator, samples_per_channel);
    generator.assemble_frame(samples_per_channel, data).unwrap()
}

fn generate_test_frame(sample_rate: u32, channels: u32, samples_per_channel: u32) -> AudioFrame {
    let mut generator = AudioFrameGenerator::new(sample_rate, channels, SampleFormat::S16);
    generate_frame(&mut generator, samples_per_channel)
}

#[test]
fn test_generate_frame_s16() {
    let mut generator = AudioFrameGenerator::new(44100, 2, SampleFormat::S16);
    let frame = generate_frame(&mut generator, 1024);
    assert_eq!(frame.sample_rate, 44100);
    assert_eq!(frame.channels, 2);
    assert_eq!(frame.sample_format, SampleFormat::S16);
    assert_eq!(frame.data.len(), 1024 * 2 * 2);
    assert_eq!(frame.sequence_id, 1);
}

#[test]
fn test_generate_frame_f32() {
    let mut generator = AudioFrameGenerator::new(48000, 1, SampleFormat::F32);
    let frame = generate_frame(&mut generator, 512);
    assert_eq!(frame.sample_rate, 48000);
    assert_eq!(frame.channels, 1);
    assert_eq!(frame.sample_format, SampleFormat::F32);
    assert_eq!(frame.data.len(), 512 * 1 * 4);
}

#[test]
fn test_generate_frame_u8() {
    let mut generator = AudioFrameGenerator::new(22050, 2, SampleFormat::U8);
    let frame = generate_frame(&mut generator, 256);
    assert_eq!(frame.data.len(), 256 * 2 * 1);
}

#[test]
fn audio_test_process_incoming_audio_frame() {
    let mut processor = AudioProcessor::new();
    processor.configure(audio_config(44100, 2, SampleFormat::S16)).unwrap();
    let frame = generate_test_frame(44100, 2, 1024);
    processor.process_incoming_frame(&frame).unwrap();
    assert_eq!(processor.frame_count(), 1);
    assert!(processor.total_samples() > 0);
}

#[test]
fn test_process_outgoing_audio_frame() {
    let mut processor = AudioProcessor::new();
    processor.configure(audio_config(48000, 1, SampleFormat::F32)).unwrap();
    let mut frame = generate_test_frame(48000, 1, 512);
    frame.timestamp_ms = 0;
    processor.process_outgoing_frame(&mut frame).unwrap();
    assert!(frame.timestamp_ms > 0);
}

#[test]
fn audio_test_process_frame_without_config() {
    let mut processor = AudioProcessor::new();
    let frame = generate_test_frame(44100, 2, 1024);
    assert!(processor.process_incoming_frame(&frame).is_err());
}

#[test]
fn test_multiple_audio_frames_sequence() {
    let mut generator = AudioFrameGenerator::new(44100, 2, SampleFormat::S16);
    let f1 = generate_frame(&mut generator, 1024);
    let f2 = generate_frame(&mut generator, 1024);
    assert!(f2.sequence_id > f1.sequence_id);
}

#[test]
fn test_sample_format_variants() {
    for format in [SampleFormat::U8, SampleFormat::S16, SampleFormat::S32, SampleFormat::F32].iter() {
        let mut generator = AudioFrameGenerator::new(44100, 2, *format);
        let frame = generate_frame(&mut generator, 128);
        assert_eq!(frame.sample_format, *format);
        assert!(!frame.data.is_empty());
    }
}
