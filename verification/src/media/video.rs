//! Video frame generation and processing.

use vstd::prelude::*;
use crate::clock::unix_time_ms;
use crate::media::error::MediaError;
use crate::protocol::{PixelFormat, VideoConfig, VideoFrame};

verus! {

/// Bytes per pixel of the packed formats; the planar formats (YUV 4:2:0)
/// are sized separately.
pub open spec fn packed_pixel_size(pf: PixelFormat) -> int {
    match pf {
        PixelFormat::Rgb565 => 2,
        _ => 4,
    }
}

/// Whether the format is a planar YUV 4:2:0 format.
pub open spec fn is_planar(pf: PixelFormat) -> bool {
    pf == PixelFormat::Yuv420p || pf == PixelFormat::Nv12
}

/// The number of bytes of a generated frame.
pub open spec fn generated_frame_size(width: u32, height: u32, pf: PixelFormat) -> int {
    if is_planar(pf) {
        width * height + 2 * ((width * height) / 4)
    } else {
        width * height * packed_pixel_size(pf)
    }
}

/// The gradient that the generator writes: byte `i` of frame `counter` is
/// `(i + counter) mod 256`; planar formats carry it in the luma plane only.
pub open spec fn generated_frame_data(width: u32, height: u32, pf: PixelFormat, counter: u64) -> Seq<u8> {
    Seq::new(
        generated_frame_size(width, height, pf) as nat,
        |i: int|
            if is_planar(pf) && i >= width * height {
                0u8
            } else if is_planar(pf) {
                ((i + counter) % 256) as u8
            } else {
                ((i + (counter % 256)) % 256) as u8
            },
    )
}

/// `len` bytes counting up from `shift`, modulo 256.
pub open spec fn gradient(len: nat, shift: int) -> Seq<u8> {
    Seq::new(len, |i: int| ((i + shift) % 256) as u8)
}

/// `len` bytes counting up from `shift`, modulo 256.
pub fn gradient_bytes(len: usize, shift: u8) -> (r: Vec<u8>)
    ensures
        r@ == gradient(len as nat, shift as int),
{
    let mut data: Vec<u8> = Vec::new();
    let mut i: usize = 0;
    while i < len
        invariant
            i <= len,
            data@ == gradient(len as nat, shift as int).take(i as int),
        decreases len - i,
    {
        data.push(((i % 256 + shift as usize) % 256) as u8);
        i = i + 1;
        assert(data@ =~= gradient(len as nat, shift as int).take(i as int));
    }
    assert(data@ =~= gradient(len as nat, shift as int));
    data
}

/// Pixel `(x, y)` of the test pattern: red `x`, green `y`, blue `x + y`
/// (each mod 256) and opaque alpha.
pub open spec fn test_pixel(x: int, y: int) -> Seq<u8> {
    seq![(x % 256) as u8, (y % 256) as u8, ((x + y) % 256) as u8, 255u8]
}

/// Row `y` of the test pattern.
pub open spec fn test_row(width: int, y: int) -> Seq<u8> {
    Seq::new((4 * width) as nat, |k: int| test_pixel(k / 4, y)[k % 4])
}

/// The RGBA test pattern, row after row.
pub open spec fn test_pattern(width: int, height: int) -> Seq<u8>
    decreases height,
{
    if height <= 0 {
        Seq::empty()
    } else {
        test_pattern(width, height - 1) + test_row(width, height - 1)
    }
}

/// Generates test video frames for screen mirroring.
#[derive(Debug, Clone)]
pub struct VideoFrameGenerator {
    width: u32,
    height: u32,
    pixel_format: PixelFormat,
    frame_counter: u64,
}

impl VideoFrameGenerator {
    pub closed spec fn spec_width(&self) -> u32 {
        self.width
    }

    pub closed spec fn spec_height(&self) -> u32 {
        self.height
    }

    pub closed spec fn spec_pixel_format(&self) -> PixelFormat {
        self.pixel_format
    }

    /// How many frames this generator has produced.
    pub closed spec fn frames_generated(&self) -> u64 {
        self.frame_counter
    }

    /// Whether the next frame's size fits the 32-bit arithmetic that sizes it.
    pub open spec fn size_fits(&self) -> bool {
        &&& self.spec_width() * self.spec_height() <= u32::MAX
        &&& generated_frame_size(self.spec_width(), self.spec_height(), self.spec_pixel_format())
            <= u32::MAX
    }

    pub fn new(width: u32, height: u32, pixel_format: PixelFormat) -> (r: Self)
        ensures
            r.spec_width() == width,
            r.spec_height() == height,
            r.spec_pixel_format() == pixel_format,
            r.frames_generated() == 0,
    {
        VideoFrameGenerator { width, height, pixel_format, frame_counter: 0 }
    }

    pub fn width(&self) -> (r: u32)
        ensures
            r == self.spec_width(),
    {
        self.width
    }

    pub fn height(&self) -> (r: u32)
        ensures
            r == self.spec_height(),
    {
        self.height
    }

    pub fn pixel_format(&self) -> (r: PixelFormat)
        ensures
            r == self.spec_pixel_format(),
    {
        self.pixel_format
    }

    /// Generates the next frame: a gradient shifted by the frame number.
    /// Frames are numbered from 1, and every 30th frame from the first on is
    /// a keyframe.
    pub fn generate_frame(&mut self) -> (r: Result<VideoFrame, MediaError>)
        requires
            old(self).frames_generated() < u64::MAX,
            old(self).size_fits(),
        ensures
            final(self).spec_width() == old(self).spec_width(),
            final(self).spec_height() == old(self).spec_height(),
            final(self).spec_pixel_format() == old(self).spec_pixel_format(),
            final(self).frames_generated() == old(self).frames_generated() + 1,
            r matches Ok(f) && f.sequence_id == final(self).frames_generated() && f.width
                == old(self).spec_width() && f.height == old(self).spec_height() && f.pixel_format
                == old(self).spec_pixel_format() && f.is_keyframe == (final(self).frames_generated()
                % 30 == 1) && f.data@ == generated_frame_data(
                old(self).spec_width(),
                old(self).spec_height(),
                old(self).spec_pixel_format(),
                old(self).frames_generated(),
            ),
    {
        let pixel_size: u32 = match self.pixel_format {
            PixelFormat::Rgba8888 | PixelFormat::Bgra8888 => 4,
            PixelFormat::Rgb565 => 2,
            PixelFormat::Yuv420p | PixelFormat::Nv12 => 0,
            _ => 4,
        };
        let ghost spec_data = generated_frame_data(
            self.width,
            self.height,
            self.pixel_format,
            self.frame_counter,
        );
        let mut data: Vec<u8> = Vec::new();
        if pixel_size == 0 {
            // YUV 4:2:0: a luma plane followed by two quarter-size chroma planes.
            let y_size = self.width * self.height;
            let uv_size = y_size / 4;
            let total = y_size + 2 * uv_size;
            let shift = (self.frame_counter % 256) as usize;
            let mut i: u32 = 0;
            while i < total
                invariant
                    y_size == self.width * self.height,
                    total as int == generated_frame_size(self.width, self.height, self.pixel_format),
                    is_planar(self.pixel_format),
                    shift == self.frame_counter % 256,
                    spec_data == generated_frame_data(
                        self.width,
                        self.height,
                        self.pixel_format,
                        self.frame_counter,
                    ),
                    i <= total,
                    data@ == spec_data.take(i as int),
                decreases total - i,
            {
                let b: u8 = if i < y_size {
                    (((i as usize) % 256 + shift) % 256) as u8
                } else {
                    0
                };
                data.push(b);
                i = i + 1;
                assert(data@ =~= spec_data.take(i as int));
            }
        } else {
            let frame_size = self.width * self.height * pixel_size;
            let counter = (self.frame_counter % 256) as u32;
            let mut i: u32 = 0;
            while i < frame_size
                invariant
                    frame_size as int == generated_frame_size(
                        self.width,
                        self.height,
                        self.pixel_format,
                    ),
                    !is_planar(self.pixel_format),
                    counter == self.frame_counter % 256,
                    spec_data == generated_frame_data(
                        self.width,
                        self.height,
                        self.pixel_format,
                        self.frame_counter,
                    ),
                    i <= frame_size,
                    data@ == spec_data.take(i as int),
                decreases frame_size - i,
            {
                data.push(((i % 256 + counter) % 256) as u8);
                i = i + 1;
                assert(data@ =~= spec_data.take(i as int));
            }
        }
        assert(data@ =~= spec_data);
        self.frame_counter = self.frame_counter + 1;
        Ok(VideoFrame {
            sequence_id: self.frame_counter,
            timestamp_ms: unix_time_ms(),
            width: self.width,
            height: self.height,
            pixel_format: self.pixel_format,
            is_keyframe: self.frame_counter % 30 == 1,
            data,
        })
    }

    /// Generates an RGBA test-pattern frame of the given size.
    pub fn generate_test_frame(width: u32, height: u32) -> (r: Result<VideoFrame, MediaError>)
        requires
            width * height * 4 <= u32::MAX,
        ensures
            r matches Ok(f) && f.sequence_id == 1 && f.width == width && f.height == height
                && f.pixel_format == PixelFormat::Rgba8888 && f.is_keyframe && f.data@
                == test_pattern(width as int, height as int),
    {
        let mut data: Vec<u8> = Vec::new();
        let mut y: u32 = 0;
        while y < height
            invariant
                y <= height,
                data@ == test_pattern(width as int, y as int),
            decreases height - y,
        {
            let ghost before = data@;
            let mut x: u32 = 0;
            while x < width
                invariant
                    x <= width,
                    y < height,
                    data@ == before + test_row(width as int, y as int).take(4 * x),
                decreases width - x,
            {
                let ghost row = test_row(width as int, y as int);
                data.push((x % 256) as u8);
                data.push((y % 256) as u8);
                data.push((((x as u64) + (y as u64)) % 256) as u8);
                data.push(255);
                proof {
                    assert(row[4 * x] == test_pixel(x as int, y as int)[0]);
                    assert(row[4 * x + 1] == test_pixel(x as int, y as int)[1]);
                    assert(row[4 * x + 2] == test_pixel(x as int, y as int)[2]);
                    assert(row[4 * x + 3] == test_pixel(x as int, y as int)[3]);
                }
                x = x + 1;
                assert(data@ =~= before + test_row(width as int, y as int).take(4 * x));
            }
            assert(test_row(width as int, y as int).take(4 * width) =~= test_row(
                width as int,
                y as int,
            ));
            y = y + 1;
        }
        Ok(VideoFrame {
            sequence_id: 1,
            timestamp_ms: unix_time_ms(),
            width,
            height,
            pixel_format: PixelFormat::Rgba8888,
            is_keyframe: true,
            data,
        })
    }
}

/// Processes incoming and outgoing video frames.
#[derive(Debug, Clone)]
pub struct VideoProcessor {
    config: Option<VideoConfig>,
    frame_count: u64,
}

impl VideoProcessor {
    pub closed spec fn spec_config(&self) -> Option<VideoConfig> {
        self.config
    }

    pub closed spec fn spec_frame_count(&self) -> u64 {
        self.frame_count
    }

    pub fn new() -> (r: Self)
        ensures
            r.spec_config() is None,
            r.spec_frame_count() == 0,
    {
        VideoProcessor { config: None, frame_count: 0 }
    }

    /// Accepts a configuration with a non-zero width and height.
    pub fn configure(&mut self, config: VideoConfig) -> (r: Result<(), MediaError>)
        ensures
            r is Ok <==> config.width != 0 && config.height != 0,
            r matches Err(e) ==> e is InvalidConfig,
            r is Ok ==> final(self).spec_config() == Some(config),
            r is Err ==> final(self).spec_config() == old(self).spec_config(),
            final(self).spec_frame_count() == old(self).spec_frame_count(),
    {
        if config.width == 0 || config.height == 0 {
            return Err(MediaError::InvalidConfig("Width and height must be greater than 0".to_string()));
        }
        self.config = Some(config);
        Ok(())
    }

    pub fn is_configured(&self) -> (r: bool)
        ensures
            r == self.spec_config() is Some,
    {
        self.config.is_some()
    }

    pub fn config(&self) -> (r: Option<&VideoConfig>)
        ensures
            r matches Some(c) ==> self.spec_config() == Some(*c),
            r is None <==> self.spec_config() is None,
    {
        self.config.as_ref()
    }

    /// Counts an incoming frame; fails before configuration.
    pub fn process_incoming_frame(&mut self, frame: &VideoFrame) -> (r: Result<(), MediaError>)
        requires
            old(self).spec_frame_count() < u64::MAX,
        ensures
            r is Ok <==> old(self).spec_config() is Some,
            r matches Err(e) ==> e is NotInitialized,
            final(self).spec_config() == old(self).spec_config(),
            final(self).spec_frame_count() == old(self).spec_frame_count() + if r is Ok {
                1int
            } else {
                0int
            },
    {
        if self.config.is_none() {
            return Err(MediaError::NotInitialized);
        }
        self.frame_count = self.frame_count + 1;
        Ok(())
    }

    /// Counts an outgoing frame and stamps it with the current time when it
    /// has no timestamp; fails before configuration.
    pub fn process_outgoing_frame(&mut self, frame: &mut VideoFrame) -> (r: Result<(), MediaError>)
        requires
            old(self).spec_frame_count() < u64::MAX,
        ensures
            r is Ok <==> old(self).spec_config() is Some,
            r matches Err(e) ==> e is NotInitialized,
            final(self).spec_config() == old(self).spec_config(),
            final(self).spec_frame_count() == old(self).spec_frame_count() + if r is Ok {
                1int
            } else {
                0int
            },
            final(frame).sequence_id == old(frame).sequence_id,
            final(frame).width == old(frame).width,
            final(frame).height == old(frame).height,
            final(frame).pixel_format == old(frame).pixel_format,
            final(frame).is_keyframe == old(frame).is_keyframe,
            final(frame).data == old(frame).data,
            (r is Err || old(frame).timestamp_ms != 0) ==> final(frame).timestamp_ms == old(frame).timestamp_ms,
    {
        if self.config.is_none() {
            return Err(MediaError::NotInitialized);
        }
        if frame.timestamp_ms == 0 {
            frame.timestamp_ms = unix_time_ms();
        }
        self.frame_count = self.frame_count + 1;
        Ok(())
    }

    pub fn frame_count(&self) -> (r: u64)
        ensures
            r == self.spec_frame_count(),
    {
        self.frame_count
    }
}

impl Default for VideoProcessor {
    fn default() -> (r: Self)
        ensures
            r.spec_config() is None,
            r.spec_frame_count() == 0,
    {
        Self::new()
    }
}

} // verus!
