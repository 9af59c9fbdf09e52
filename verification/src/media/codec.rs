//! Simple video and audio codecs.
//!
//! Every codec writes a fixed little-endian header with the frame's
//! metadata, followed by the frame's bytes, transformed by the codec:
//! unchanged (raw, PCM), run-length encoded (RLE), run-length encoded over a
//! frequency-ordered symbol table (Huffman-style) or as differences between
//! consecutive bytes (differential).

use vstd::prelude::*;
use vstd::bytes::{
    spec_u16_from_le_bytes, spec_u16_to_le_bytes, spec_u32_from_le_bytes, spec_u32_to_le_bytes,
    spec_u64_from_le_bytes, spec_u64_to_le_bytes, u16_from_le_bytes, u16_to_le_bytes,
    u32_from_le_bytes, u32_to_le_bytes, u64_from_le_bytes, u64_to_le_bytes,
};
use crate::bytes_util::append_bytes;
use crate::media::error::MediaError;
use crate::protocol::{AudioFrame, PixelFormat, SampleFormat, VideoFrame};

verus! {

broadcast use vstd::string::to_string_from_display_ensures_for_str;

// ============================================================
// Format codes
// ============================================================

/// The numeric code of a pixel format.
pub open spec fn pixel_code(pf: PixelFormat) -> i32 {
    match pf {
        PixelFormat::Unknown => 0,
        PixelFormat::Rgba8888 => 1,
        PixelFormat::Bgra8888 => 2,
        PixelFormat::Rgb565 => 3,
        PixelFormat::Yuv420p => 4,
        PixelFormat::Nv12 => 5,
    }
}

/// The pixel format with code `v`; every other code means `Unknown`.
pub open spec fn pixel_from_code(v: i32) -> PixelFormat {
    if v == 1 {
        PixelFormat::Rgba8888
    } else if v == 2 {
        PixelFormat::Bgra8888
    } else if v == 3 {
        PixelFormat::Rgb565
    } else if v == 4 {
        PixelFormat::Yuv420p
    } else if v == 5 {
        PixelFormat::Nv12
    } else {
        PixelFormat::Unknown
    }
}

/// The numeric code of a sample format.
pub open spec fn sample_code(sf: SampleFormat) -> i32 {
    match sf {
        SampleFormat::Unknown => 0,
        SampleFormat::U8 => 1,
        SampleFormat::S16 => 2,
        SampleFormat::S32 => 3,
        SampleFormat::F32 => 4,
    }
}

/// The sample format with code `v`; every other code means `Unknown`.
pub open spec fn sample_from_code(v: i32) -> SampleFormat {
    if v == 1 {
        SampleFormat::U8
    } else if v == 2 {
        SampleFormat::S16
    } else if v == 3 {
        SampleFormat::S32
    } else if v == 4 {
        SampleFormat::F32
    } else {
        SampleFormat::Unknown
    }
}

fn pixel_format_to_i32(pf: PixelFormat) -> (r: i32)
    ensures
        r == pixel_code(pf),
{
    match pf {
        PixelFormat::Unknown => 0,
        PixelFormat::Rgba8888 => 1,
        PixelFormat::Bgra8888 => 2,
        PixelFormat::Rgb565 => 3,
        PixelFormat::Yuv420p => 4,
        PixelFormat::Nv12 => 5,
    }
}

fn pixel_format_from_i32(v: i32) -> (r: PixelFormat)
    ensures
        r == pixel_from_code(v),
{
    match v {
        1 => PixelFormat::Rgba8888,
        2 => PixelFormat::Bgra8888,
        3 => PixelFormat::Rgb565,
        4 => PixelFormat::Yuv420p,
        5 => PixelFormat::Nv12,
        _ => PixelFormat::Unknown,
    }
}

fn sample_format_to_i32(sf: SampleFormat) -> (r: i32)
    ensures
        r == sample_code(sf),
{
    match sf {
        SampleFormat::Unknown => 0,
        SampleFormat::U8 => 1,
        SampleFormat::S16 => 2,
        SampleFormat::S32 => 3,
        SampleFormat::F32 => 4,
    }
}

fn sample_format_from_i32(v: i32) -> (r: SampleFormat)
    ensures
        r == sample_from_code(v),
{
    match v {
        1 => SampleFormat::U8,
        2 => SampleFormat::S16,
        3 => SampleFormat::S32,
        4 => SampleFormat::F32,
        _ => SampleFormat::Unknown,
    }
}

// ============================================================
// Headers
// ============================================================

/// The little-endian bytes of a 32-bit signed value.
pub open spec fn le_i32(v: i32) -> Seq<u8> {
    spec_u32_to_le_bytes(v as u32)
}

/// The 32-bit signed value of four little-endian bytes.
pub open spec fn i32_of_le(s: Seq<u8>) -> i32 {
    spec_u32_from_le_bytes(s) as i32
}

/// The 29-byte header that every video codec writes before its payload.
pub open spec fn video_header(f: VideoFrame) -> Seq<u8> {
    spec_u64_to_le_bytes(f.sequence_id) + spec_u64_to_le_bytes(f.timestamp_ms)
        + spec_u32_to_le_bytes(f.width) + spec_u32_to_le_bytes(f.height) + le_i32(
        pixel_code(f.pixel_format),
    ) + seq![if f.is_keyframe { 1u8 } else { 0u8 }]
}

/// The 28-byte header that every audio codec writes before its payload.
pub open spec fn audio_header(f: AudioFrame) -> Seq<u8> {
    spec_u64_to_le_bytes(f.sequence_id) + spec_u64_to_le_bytes(f.timestamp_ms)
        + spec_u32_to_le_bytes(f.sample_rate) + spec_u32_to_le_bytes(f.channels) + le_i32(
        sample_code(f.sample_format),
    )
}

/// `f` carries the metadata that the video header at the start of `s` holds.
pub open spec fn video_meta_from(f: VideoFrame, s: Seq<u8>) -> bool {
    &&& f.sequence_id == spec_u64_from_le_bytes(s.subrange(0, 8))
    &&& f.timestamp_ms == spec_u64_from_le_bytes(s.subrange(8, 16))
    &&& f.width == spec_u32_from_le_bytes(s.subrange(16, 20))
    &&& f.height == spec_u32_from_le_bytes(s.subrange(20, 24))
    &&& f.pixel_format == pixel_from_code(i32_of_le(s.subrange(24, 28)))
    &&& f.is_keyframe == (s[28] != 0)
}

/// `f` carries the metadata that the audio header at the start of `s` holds.
pub open spec fn audio_meta_from(f: AudioFrame, s: Seq<u8>) -> bool {
    &&& f.sequence_id == spec_u64_from_le_bytes(s.subrange(0, 8))
    &&& f.timestamp_ms == spec_u64_from_le_bytes(s.subrange(8, 16))
    &&& f.sample_rate == spec_u32_from_le_bytes(s.subrange(16, 20))
    &&& f.channels == spec_u32_from_le_bytes(s.subrange(20, 24))
    &&& f.sample_format == sample_from_code(i32_of_le(s.subrange(24, 28)))
}

/// Two video frames carry the same metadata.
pub open spec fn same_video_meta(a: VideoFrame, b: VideoFrame) -> bool {
    &&& a.sequence_id == b.sequence_id
    &&& a.timestamp_ms == b.timestamp_ms
    &&& a.width == b.width
    &&& a.height == b.height
    &&& a.pixel_format == b.pixel_format
    &&& a.is_keyframe == b.is_keyframe
}

/// Two audio frames carry the same metadata.
pub open spec fn same_audio_meta(a: AudioFrame, b: AudioFrame) -> bool {
    &&& a.sequence_id == b.sequence_id
    &&& a.timestamp_ms == b.timestamp_ms
    &&& a.sample_rate == b.sample_rate
    &&& a.channels == b.channels
    &&& a.sample_format == b.sample_format
}

/// Video headers are 29 bytes long and audio headers 28.
pub proof fn lemma_header_lengths(v: VideoFrame, a: AudioFrame)
    ensures
        video_header(v).len() == 29,
        audio_header(a).len() == 28,
{
    vstd::bytes::lemma_auto_spec_u64_to_from_le_bytes();
    vstd::bytes::lemma_auto_spec_u32_to_from_le_bytes();
}

/// Reading a video header back gives the metadata that was written.
pub proof fn lemma_video_header_roundtrip(f: VideoFrame, g: VideoFrame, rest: Seq<u8>)
    requires
        video_meta_from(g, video_header(f) + rest),
    ensures
        same_video_meta(f, g),
{
    vstd::bytes::lemma_auto_spec_u64_to_from_le_bytes();
    vstd::bytes::lemma_auto_spec_u32_to_from_le_bytes();
    let s = video_header(f) + rest;
    assert(s.subrange(0, 8) =~= spec_u64_to_le_bytes(f.sequence_id));
    assert(s.subrange(8, 16) =~= spec_u64_to_le_bytes(f.timestamp_ms));
    assert(s.subrange(16, 20) =~= spec_u32_to_le_bytes(f.width));
    assert(s.subrange(20, 24) =~= spec_u32_to_le_bytes(f.height));
    assert(s.subrange(24, 28) =~= le_i32(pixel_code(f.pixel_format)));
    assert(s[28] == (if f.is_keyframe { 1u8 } else { 0u8 }));
}

/// Reading an audio header back gives the metadata that was written.
pub proof fn lemma_audio_header_roundtrip(f: AudioFrame, g: AudioFrame, rest: Seq<u8>)
    requires
        audio_meta_from(g, audio_header(f) + rest),
    ensures
        same_audio_meta(f, g),
{
    vstd::bytes::lemma_auto_spec_u64_to_from_le_bytes();
    vstd::bytes::lemma_auto_spec_u32_to_from_le_bytes();
    let s = audio_header(f) + rest;
    assert(s.subrange(0, 8) =~= spec_u64_to_le_bytes(f.sequence_id));
    assert(s.subrange(8, 16) =~= spec_u64_to_le_bytes(f.timestamp_ms));
    assert(s.subrange(16, 20) =~= spec_u32_to_le_bytes(f.sample_rate));
    assert(s.subrange(20, 24) =~= spec_u32_to_le_bytes(f.channels));
    assert(s.subrange(24, 28) =~= le_i32(sample_code(f.sample_format)));
}

fn push_video_header(out: &mut Vec<u8>, f: &VideoFrame)
    ensures
        final(out)@ == old(out)@ + video_header(*f),
{
    append_bytes(out, u64_to_le_bytes(f.sequence_id).as_slice());
    append_bytes(out, u64_to_le_bytes(f.timestamp_ms).as_slice());
    append_bytes(out, u32_to_le_bytes(f.width).as_slice());
    append_bytes(out, u32_to_le_bytes(f.height).as_slice());
    let pf = pixel_format_to_i32(f.pixel_format);
    append_bytes(out, u32_to_le_bytes(pf as u32).as_slice());
    out.push(if f.is_keyframe { 1 } else { 0 });
    assert(final(out)@ =~= old(out)@ + video_header(*f));
}

fn push_audio_header(out: &mut Vec<u8>, f: &AudioFrame)
    ensures
        final(out)@ == old(out)@ + audio_header(*f),
{
    append_bytes(out, u64_to_le_bytes(f.sequence_id).as_slice());
    append_bytes(out, u64_to_le_bytes(f.timestamp_ms).as_slice());
    append_bytes(out, u32_to_le_bytes(f.sample_rate).as_slice());
    append_bytes(out, u32_to_le_bytes(f.channels).as_slice());
    let sf = sample_format_to_i32(f.sample_format);
    append_bytes(out, u32_to_le_bytes(sf as u32).as_slice());
    assert(final(out)@ =~= old(out)@ + audio_header(*f));
}

/// Reads the video header at the start of `s`; the returned frame has no data.
fn read_video_header(s: &[u8]) -> (r: VideoFrame)
    requires
        s@.len() >= 29,
    ensures
        video_meta_from(r, s@),
        r.data@.len() == 0,
{
    let sequence_id = u64_from_le_bytes(&s[0..8]);
    let timestamp_ms = u64_from_le_bytes(&s[8..16]);
    let width = u32_from_le_bytes(&s[16..20]);
    let height = u32_from_le_bytes(&s[20..24]);
    let pf = u32_from_le_bytes(&s[24..28]) as i32;
    let is_keyframe = s[28] != 0;
    VideoFrame {
        sequence_id,
        timestamp_ms,
        width,
        height,
        pixel_format: pixel_format_from_i32(pf),
        is_keyframe,
        data: Vec::new(),
    }
}

/// Reads the audio header at the start of `s`; the returned frame has no data.
fn read_audio_header(s: &[u8]) -> (r: AudioFrame)
    requires
        s@.len() >= 28,
    ensures
        audio_meta_from(r, s@),
        r.data@.len() == 0,
{
    let sequence_id = u64_from_le_bytes(&s[0..8]);
    let timestamp_ms = u64_from_le_bytes(&s[8..16]);
    let sample_rate = u32_from_le_bytes(&s[16..20]);
    let channels = u32_from_le_bytes(&s[20..24]);
    let sf = u32_from_le_bytes(&s[24..28]) as i32;
    AudioFrame {
        sequence_id,
        timestamp_ms,
        sample_rate,
        channels,
        sample_format: sample_format_from_i32(sf),
        data: Vec::new(),
    }
}

/// The bytes of `s` from `start` on, as a fresh vector.
fn tail_from(s: &[u8], start: usize) -> (r: Vec<u8>)
    requires
        start <= s@.len(),
    ensures
        r@ == s@.skip(start as int),
{
    let mut r: Vec<u8> = Vec::new();
    append_bytes(&mut r, &s[start..s.len()]);
    assert(r@ =~= s@.skip(start as int));
    r
}

// ============================================================
// Codec interface
// ============================================================

/// Unified interface for encoding and decoding.
pub trait Codec {
    type Input;
    type Output;

    /// The encoded inputs that `decode` can read without running past the
    /// end of the data.
    spec fn decodable(&self, input: &Self::Output) -> bool;

    /// The inputs that `encode` can encode without overflowing a counter.
    spec fn encodable(&self, input: &Self::Input) -> bool;

    fn name(&self) -> &str;

    fn encode(&mut self, input: &Self::Input) -> Result<Self::Output, MediaError>
        requires
            old(self).encodable(input),
    ;

    fn decode(&mut self, input: &Self::Output) -> Result<Self::Input, MediaError>
        requires
            old(self).decodable(input),
    ;
}

/// Encoded bytes together with what produced them.
#[derive(Debug, Clone)]
pub struct EncodedData {
    pub codec: String,
    pub original_size: usize,
    pub encoded_size: usize,
    pub data: Vec<u8>,
}

// ============================================================
// Raw video codec
// ============================================================

/// Video codec that passes the pixel data through unchanged.
#[derive(Debug, Clone, Default)]
pub struct RawVideoCodec;

impl RawVideoCodec {
    pub fn new() -> (r: Self)
        ensures
            r == RawVideoCodec,
    {
        RawVideoCodec
    }
}

impl Codec for RawVideoCodec {
    open spec fn encodable(&self, input: &VideoFrame) -> bool {
        true
    }

    open spec fn decodable(&self, input: &EncodedData) -> bool {
        true
    }

    type Input = VideoFrame;
    type Output = EncodedData;

    fn name(&self) -> (r: &str)
        ensures
            r@ == "raw"@,
    {
        "raw"
    }

    fn encode(&mut self, input: &VideoFrame) -> (r: Result<EncodedData, MediaError>)
        ensures
            r matches Ok(e) && e.codec@ == "raw"@ && e.original_size == input.data@.len()
                && e.encoded_size == e.data@.len() && e.data@ == video_header(*input)
                + input.data@,
    {
        let mut data: Vec<u8> = Vec::new();
        push_video_header(&mut data, input);
        append_bytes(&mut data, input.data.as_slice());
        let encoded_size = data.len();
        Ok(EncodedData {
            codec: "raw".to_string(),
            original_size: input.data.len(),
            encoded_size,
            data,
        })
    }

    fn decode(&mut self, input: &EncodedData) -> (r: Result<VideoFrame, MediaError>)
        ensures
            r is Err <==> input.data@.len() < 29,
            r matches Err(e) ==> e is FrameProcessing,
            r matches Ok(f) ==> video_meta_from(f, input.data@) && f.data@ == input.data@.skip(
                29,
            ),
    {
        if input.data.len() < 29 {
            return Err(MediaError::FrameProcessing("Invalid raw encoded data".to_string()));
        }
        let mut frame = read_video_header(input.data.as_slice());
        frame.data = tail_from(input.data.as_slice(), 29);
        Ok(frame)
    }
}

// ============================================================
// RLE video codec
// ============================================================

/// How many leading bytes of `d` equal `d[0]`, counting on from `k` and
/// stopping at 255.
pub open spec fn run_length_from(d: Seq<u8>, k: int) -> int
    decreases d.len() - k,
{
    if 1 <= k && k < d.len() && k < 255 && d[k] == d[0] {
        run_length_from(d, k + 1)
    } else {
        k
    }
}

/// The length of the run that `d` starts with, at most 255.
pub open spec fn run_length(d: Seq<u8>) -> int {
    run_length_from(d, 1)
}

pub proof fn lemma_run_length_from(d: Seq<u8>, k: int)
    requires
        1 <= k <= d.len(),
        k <= 255,
        forall|j: int| 0 <= j < k ==> #[trigger] d[j] == d[0],
    ensures
        k <= run_length_from(d, k) <= d.len(),
        run_length_from(d, k) <= 255,
        forall|j: int| 0 <= j < run_length_from(d, k) ==> #[trigger] d[j] == d[0],
        run_length_from(d, k) == d.len() || run_length_from(d, k) == 255 || d[run_length_from(
            d,
            k,
        )] != d[0],
    decreases d.len() - k,
{
    if k < d.len() && k < 255 && d[k] == d[0] {
        lemma_run_length_from(d, k + 1);
    }
}

/// The run that `d` starts with is a non-empty run of equal bytes, ended by
/// the end of `d`, by a different byte or by the cap of 255.
pub proof fn lemma_run_length(d: Seq<u8>)
    requires
        d.len() >= 1,
    ensures
        1 <= run_length(d) <= d.len(),
        run_length(d) <= 255,
        forall|j: int| 0 <= j < run_length(d) ==> #[trigger] d[j] == d[0],
        run_length(d) == d.len() || run_length(d) == 255 || d[run_length(d)] != d[0],
{
    lemma_run_length_from(d, 1);
}

/// Run-length encoding: each maximal run (of at most 255 equal bytes) becomes
/// the pair (length, byte).
pub open spec fn rle_encoding(d: Seq<u8>) -> Seq<u8>
    decreases d.len(),
{
    if d.len() == 0 {
        Seq::empty()
    } else {
        proof {
            lemma_run_length(d);
        }
        seq![run_length(d) as u8, d[0]] + rle_encoding(d.skip(run_length(d)))
    }
}

/// Run-length decoding: each pair (count, byte) becomes `count` copies of
/// `byte`; a trailing odd byte is ignored.
pub open spec fn rle_decoding(d: Seq<u8>) -> Seq<u8>
    decreases d.len(),
{
    if d.len() < 2 {
        Seq::empty()
    } else {
        Seq::new(d[0] as nat, |i: int| d[1]) + rle_decoding(d.skip(2))
    }
}

/// Decoding the run-length encoding of any bytes gives them back.
pub proof fn lemma_rle_roundtrip(d: Seq<u8>)
    ensures
        rle_decoding(rle_encoding(d)) == d,
    decreases d.len(),
{
    if d.len() > 0 {
        lemma_run_length(d);
        let n = run_length(d);
        let rest = rle_encoding(d.skip(n));
        let e = seq![n as u8, d[0]] + rest;
        assert(e == rle_encoding(d));
        assert(e.skip(2) =~= rest);
        lemma_rle_roundtrip(d.skip(n));
        assert(Seq::new(e[0] as nat, |i: int| e[1]) =~= d.take(n));
        assert(d.take(n) + d.skip(n) =~= d);
    } else {
        assert(rle_encoding(d) =~= Seq::<u8>::empty());
        assert(d =~= Seq::<u8>::empty());
    }
}

/// The run-length encoding of `d` is a sequence of pairs, at most twice as
/// long as `d`.
pub proof fn lemma_rle_length(d: Seq<u8>)
    ensures
        rle_encoding(d).len() % 2 == 0,
        rle_encoding(d).len() <= 2 * d.len(),
    decreases d.len(),
{
    if d.len() > 0 {
        lemma_run_length(d);
        lemma_rle_length(d.skip(run_length(d)));
    }
}

/// Video codec that run-length encodes the pixel data.
#[derive(Debug, Clone, Default)]
pub struct RleVideoCodec;

impl RleVideoCodec {
    pub fn new() -> (r: Self)
        ensures
            r == RleVideoCodec,
    {
        RleVideoCodec
    }

    /// Run-length encodes `data`.
    pub fn rle_encode(data: &[u8]) -> (r: Vec<u8>)
        ensures
            r@ == rle_encoding(data@),
    {
        let mut result: Vec<u8> = Vec::new();
        if data.len() == 0 {
            return result;
        }
        let mut i: usize = 0;
        assert(data@.skip(0) =~= data@);
        while i < data.len()
            invariant
                i <= data@.len(),
                rle_encoding(data@) == result@ + rle_encoding(data@.skip(i as int)),
            decreases data@.len() - i,
        {
            let ghost start = i as int;
            let ghost d = data@.skip(start);
            let ghost before = result@;
            let byte = data[i];
            let mut count: u16 = 1;
            proof {
                lemma_run_length(d);
            }
            while i < data.len() - 1 && data[i + 1] == byte && count < 255
                invariant
                    0 <= start < data@.len(),
                    d == data@.skip(start),
                    byte == d[0],
                    1 <= count <= 255,
                    i + 1 == start + count,
                    i < data@.len(),
                    forall|j: int| 0 <= j < count ==> #[trigger] d[j] == d[0],
                    run_length_from(d, count as int) == run_length(d),
                decreases data@.len() - i,
            {
                let ghost oc = count as int;
                assert(d.len() == data@.len() - start);
                assert(oc < d.len());
                assert(d[oc] == data@[start + oc]);
                assert(run_length_from(d, oc) == run_length_from(d, oc + 1));
                count = count + 1;
                i = i + 1;
            }
            assert(run_length_from(d, count as int) == count as int);
            result.push(count as u8);
            result.push(byte);
            i = i + 1;
            assert(d.skip(count as int) =~= data@.skip(i as int));
            assert(rle_encoding(d) == seq![count as u8, byte] + rle_encoding(d.skip(count as int)));
            assert(before + (seq![count as u8, byte] + rle_encoding(data@.skip(i as int)))
                =~= result@ + rle_encoding(data@.skip(i as int)));
        }
        assert(data@.skip(data@.len() as int) =~= Seq::<u8>::empty());
        result
    }

    /// Decodes run-length encoded pairs.
    pub fn rle_decode(data: &[u8]) -> (r: Vec<u8>)
        ensures
            r@ == rle_decoding(data@),
    {
        let mut result: Vec<u8> = Vec::new();
        let mut i: usize = 0;
        assert(data@.skip(0) =~= data@);
        while i < data.len() && data.len() - i > 1
            invariant
                i <= data@.len(),
                rle_decoding(data@) == result@ + rle_decoding(data@.skip(i as int)),
            decreases data@.len() - i,
        {
            let ghost d = data@.skip(i as int);
            let ghost before = result@;
            let count = data[i];
            let byte = data[i + 1];
            let mut k: u8 = 0;
            while k < count
                invariant
                    k <= count,
                    result@ == before + Seq::new(k as nat, |j: int| byte),
                decreases count - k,
            {
                result.push(byte);
                k = k + 1;
                assert(result@ =~= before + Seq::new(k as nat, |j: int| byte));
            }
            i = i + 2;
            assert(d.skip(2) =~= data@.skip(i as int));
            assert(Seq::new(d[0] as nat, |j: int| d[1]) =~= Seq::new(count as nat, |j: int| byte));
        }
        assert(data@.skip(i as int).len() < 2);
        result
    }
}


/// The bytes that the RLE video codec produces for `f`.
pub open spec fn rle_video_bytes(f: VideoFrame) -> Seq<u8> {
    video_header(f) + spec_u64_to_le_bytes(rle_encoding(f.data@).len() as u64)
        + spec_u64_to_le_bytes(f.data@.len() as u64) + rle_encoding(f.data@)
}

impl Codec for RleVideoCodec {
    open spec fn encodable(&self, input: &VideoFrame) -> bool {
        true
    }

    open spec fn decodable(&self, input: &EncodedData) -> bool {
        true
    }

    type Input = VideoFrame;
    type Output = EncodedData;

    fn name(&self) -> (r: &str)
        ensures
            r@ == "rle"@,
    {
        "rle"
    }

    fn encode(&mut self, input: &VideoFrame) -> (r: Result<EncodedData, MediaError>)
        ensures
            r matches Ok(e) && e.codec@ == "rle"@ && e.original_size == input.data@.len()
                && e.encoded_size == e.data@.len() && e.data@ == rle_video_bytes(*input),
    {
        let original_size = input.data.len();
        let mut data: Vec<u8> = Vec::new();
        push_video_header(&mut data, input);
        let encoded = Self::rle_encode(input.data.as_slice());
        append_bytes(&mut data, u64_to_le_bytes(encoded.len() as u64).as_slice());
        append_bytes(&mut data, u64_to_le_bytes(original_size as u64).as_slice());
        append_bytes(&mut data, encoded.as_slice());
        assert(data@ =~= rle_video_bytes(*input));
        let encoded_size = data.len();
        Ok(EncodedData { codec: "rle".to_string(), original_size, encoded_size, data })
    }

    fn decode(&mut self, input: &EncodedData) -> (r: Result<VideoFrame, MediaError>)
        ensures
            r is Err <==> input.data@.len() < 45,
            r matches Err(e) ==> e is FrameProcessing,
            r matches Ok(f) ==> video_meta_from(f, input.data@) && f.data@ == rle_decoding(
                input.data@.skip(45),
            ),
    {
        if input.data.len() < 45 {
            return Err(MediaError::FrameProcessing("Invalid RLE encoded data".to_string()));
        }
        let mut frame = read_video_header(input.data.as_slice());
        let _enc_len = u64_from_le_bytes(&input.data.as_slice()[29..37]);
        let _orig_len = u64_from_le_bytes(&input.data.as_slice()[37..45]);
        let rle_data = &input.data.as_slice()[45..input.data.len()];
        frame.data = Self::rle_decode(rle_data);
        assert(rle_data@ =~= input.data@.skip(45));
        Ok(frame)
    }
}

/// Decoding what the raw codec encodes gives the frame back.
pub proof fn lemma_raw_video_roundtrip(f: VideoFrame, g: VideoFrame)
    requires
        video_meta_from(g, video_header(f) + f.data@),
        g.data@ == (video_header(f) + f.data@).skip(29),
    ensures
        same_video_meta(f, g),
        g.data@ == f.data@,
{
    lemma_video_header_roundtrip(f, g, f.data@);
    lemma_header_lengths(f, arbitrary());
    assert((video_header(f) + f.data@).skip(29) =~= f.data@);
}

/// Decoding what the RLE codec encodes gives the frame back.
pub proof fn lemma_rle_video_roundtrip(f: VideoFrame, g: VideoFrame)
    requires
        video_meta_from(g, rle_video_bytes(f)),
        g.data@ == rle_decoding(rle_video_bytes(f).skip(45)),
    ensures
        same_video_meta(f, g),
        g.data@ == f.data@,
        rle_video_bytes(f).len() >= 45,
{
    let rest = spec_u64_to_le_bytes(rle_encoding(f.data@).len() as u64) + spec_u64_to_le_bytes(
        f.data@.len() as u64,
    ) + rle_encoding(f.data@);
    assert(rle_video_bytes(f) =~= video_header(f) + rest);
    lemma_video_header_roundtrip(f, g, rest);
    lemma_header_lengths(f, arbitrary());
    vstd::bytes::lemma_auto_spec_u64_to_from_le_bytes();
    assert(rle_video_bytes(f).skip(45) =~= rle_encoding(f.data@));
    lemma_rle_roundtrip(f.data@);
}

// ============================================================
// PCM audio codec
// ============================================================

/// Audio codec that passes the samples through unchanged.
#[derive(Debug, Clone, Default)]
pub struct PcmAudioCodec;

impl PcmAudioCodec {
    pub fn new() -> (r: Self)
        ensures
            r == PcmAudioCodec,
    {
        PcmAudioCodec
    }
}

impl Codec for PcmAudioCodec {
    open spec fn encodable(&self, input: &AudioFrame) -> bool {
        true
    }

    open spec fn decodable(&self, input: &EncodedData) -> bool {
        true
    }

    type Input = AudioFrame;
    type Output = EncodedData;

    fn name(&self) -> (r: &str)
        ensures
            r@ == "pcm"@,
    {
        "pcm"
    }

    fn encode(&mut self, input: &AudioFrame) -> (r: Result<EncodedData, MediaError>)
        ensures
            r matches Ok(e) && e.codec@ == "pcm"@ && e.original_size == input.data@.len()
                && e.encoded_size == e.data@.len() && e.data@ == audio_header(*input)
                + input.data@,
    {
        let original_size = input.data.len();
        let mut data: Vec<u8> = Vec::new();
        push_audio_header(&mut data, input);
        append_bytes(&mut data, input.data.as_slice());
        let encoded_size = data.len();
        Ok(EncodedData { codec: "pcm".to_string(), original_size, encoded_size, data })
    }

    fn decode(&mut self, input: &EncodedData) -> (r: Result<AudioFrame, MediaError>)
        ensures
            r is Err <==> input.data@.len() < 28,
            r matches Err(e) ==> e is FrameProcessing,
            r matches Ok(f) ==> audio_meta_from(f, input.data@) && f.data@ == input.data@.skip(
                28,
            ),
    {
        if input.data.len() < 28 {
            return Err(MediaError::FrameProcessing("Invalid PCM encoded data".to_string()));
        }
        let mut frame = read_audio_header(input.data.as_slice());
        frame.data = tail_from(input.data.as_slice(), 28);
        Ok(frame)
    }
}

/// Decoding what the PCM codec encodes gives the frame back.
pub proof fn lemma_pcm_audio_roundtrip(f: AudioFrame, g: AudioFrame)
    requires
        audio_meta_from(g, audio_header(f) + f.data@),
        g.data@ == (audio_header(f) + f.data@).skip(28),
    ensures
        same_audio_meta(f, g),
        g.data@ == f.data@,
{
    lemma_audio_header_roundtrip(f, g, f.data@);
    lemma_header_lengths(arbitrary(), f);
    assert((audio_header(f) + f.data@).skip(28) =~= f.data@);
}

// ============================================================
// Differential audio codec
// ============================================================

/// The differential encoding of byte `i` of `d`: the first byte as it is,
/// every later byte as its difference (mod 256) to the byte before it.
pub open spec fn diff_at(d: Seq<u8>, i: int) -> u8 {
    if i == 0 {
        d[0]
    } else {
        vstd::wrapping::u8_specs::wrapping_sub(d[i], d[i - 1])
    }
}

/// Differential encoding of `d`.
pub open spec fn diff_encoding(d: Seq<u8>) -> Seq<u8> {
    Seq::new(d.len(), |i: int| diff_at(d, i))
}

/// Differential decoding of `d`: running sums (mod 256).
pub open spec fn diff_decoding(d: Seq<u8>) -> Seq<u8>
    decreases d.len(),
{
    if d.len() == 0 {
        Seq::empty()
    } else if d.len() == 1 {
        seq![d[0]]
    } else {
        let p = diff_decoding(d.drop_last());
        p.push(vstd::wrapping::u8_specs::wrapping_add(p.last(), d.last()))
    }
}

pub proof fn lemma_diff_decoding_len(d: Seq<u8>)
    ensures
        diff_decoding(d).len() == d.len(),
    decreases d.len(),
{
    if d.len() > 1 {
        lemma_diff_decoding_len(d.drop_last());
    }
}

/// Decoding the differential encoding of any bytes gives them back.
pub proof fn lemma_diff_roundtrip(d: Seq<u8>)
    ensures
        diff_decoding(diff_encoding(d)) == d,
    decreases d.len(),
{
    if d.len() == 0 {
        assert(diff_encoding(d) =~= Seq::<u8>::empty());
        assert(d =~= Seq::<u8>::empty());
    } else if d.len() == 1 {
        assert(diff_encoding(d) =~= seq![d[0]]);
        assert(d =~= seq![d[0]]);
    } else {
        let e = diff_encoding(d);
        let dl = d.drop_last();
        assert(e.drop_last() =~= diff_encoding(dl));
        lemma_diff_roundtrip(dl);
        lemma_diff_decoding_len(dl);
        assert(diff_decoding(e) =~= d);
    }
}

/// Encoding the differential decoding of any bytes gives them back.
pub proof fn lemma_diff_inverse(d: Seq<u8>)
    ensures
        diff_encoding(diff_decoding(d)) == d,
    decreases d.len(),
{
    lemma_diff_decoding_len(d);
    if d.len() == 0 {
        assert(diff_encoding(diff_decoding(d)) =~= d);
    } else if d.len() == 1 {
        assert(diff_encoding(diff_decoding(d)) =~= d);
    } else {
        let dl = d.drop_last();
        lemma_diff_inverse(dl);
        lemma_diff_decoding_len(dl);
        let p = diff_decoding(dl);
        let q = diff_decoding(d);
        assert(q.drop_last() =~= p);
        assert forall|i: int| 0 <= i < d.len() implies #[trigger] diff_at(q, i) == d[i] by {
            if i < d.len() - 1 {
                assert(diff_at(q, i) == diff_at(p, i));
                assert(diff_encoding(p)[i] == dl[i]);
            }
        }
        assert(diff_encoding(q) =~= d);
    }
}

/// Audio codec that stores the first byte and then byte-to-byte differences.
#[derive(Debug, Clone, Default)]
pub struct DifferentialAudioCodec;

impl DifferentialAudioCodec {
    pub fn new() -> (r: Self)
        ensures
            r == DifferentialAudioCodec,
    {
        DifferentialAudioCodec
    }

    /// Differentially encodes `data`.
    pub fn diff_encode(data: &[u8]) -> (r: Vec<u8>)
        ensures
            r@ == diff_encoding(data@),
    {
        if data.len() == 0 {
            let r: Vec<u8> = Vec::new();
            assert(r@ =~= diff_encoding(data@));
            return r;
        }
        let mut result: Vec<u8> = Vec::new();
        result.push(data[0]);
        let mut i: usize = 1;
        while i < data.len()
            invariant
                1 <= i <= data@.len(),
                result@ == diff_encoding(data@).take(i as int),
            decreases data@.len() - i,
        {
            result.push(data[i].wrapping_sub(data[i - 1]));
            i = i + 1;
            assert(result@ =~= diff_encoding(data@).take(i as int));
        }
        assert(result@ =~= diff_encoding(data@));
        result
    }

    /// Differentially decodes `data`.
    pub fn diff_decode(data: &[u8]) -> (r: Vec<u8>)
        ensures
            r@ == diff_decoding(data@),
    {
        if data.len() == 0 {
            let r: Vec<u8> = Vec::new();
            assert(r@ =~= diff_decoding(data@));
            return r;
        }
        let mut result: Vec<u8> = Vec::new();
        result.push(data[0]);
        let mut i: usize = 1;
        assert(result@ =~= diff_decoding(data@.take(1)));
        while i < data.len()
            invariant
                1 <= i <= data@.len(),
                result@ == diff_decoding(data@.take(i as int)),
                result@.len() == i,
            decreases data@.len() - i,
        {
            proof {
                lemma_diff_decoding_len(data@.take(i as int));
            }
            let next = result[i - 1].wrapping_add(data[i]);
            result.push(next);
            i = i + 1;
            assert(data@.take(i as int).drop_last() =~= data@.take(i - 1 as int));
        }
        assert(data@.take(data@.len() as int) =~= data@);
        result
    }
}

/// The bytes that the differential audio codec produces for `f`.
pub open spec fn diff_audio_bytes(f: AudioFrame) -> Seq<u8> {
    audio_header(f) + diff_encoding(f.data@)
}

impl Codec for DifferentialAudioCodec {
    open spec fn encodable(&self, input: &AudioFrame) -> bool {
        true
    }

    open spec fn decodable(&self, input: &EncodedData) -> bool {
        true
    }

    type Input = AudioFrame;
    type Output = EncodedData;

    fn name(&self) -> (r: &str)
        ensures
            r@ == "differential"@,
    {
        "differential"
    }

    fn encode(&mut self, input: &AudioFrame) -> (r: Result<EncodedData, MediaError>)
        ensures
            r matches Ok(e) && e.codec@ == "differential"@ && e.original_size
                == input.data@.len() && e.encoded_size == e.data@.len() && e.data@
                == diff_audio_bytes(*input),
    {
        let original_size = input.data.len();
        let mut data: Vec<u8> = Vec::new();
        push_audio_header(&mut data, input);
        let encoded = Self::diff_encode(input.data.as_slice());
        append_bytes(&mut data, encoded.as_slice());
        let encoded_size = data.len();
        Ok(EncodedData { codec: "differential".to_string(), original_size, encoded_size, data })
    }

    fn decode(&mut self, input: &EncodedData) -> (r: Result<AudioFrame, MediaError>)
        ensures
            r is Err <==> input.data@.len() < 28,
            r matches Err(e) ==> e is FrameProcessing,
            r matches Ok(f) ==> audio_meta_from(f, input.data@) && f.data@ == diff_decoding(
                input.data@.skip(28),
            ),
    {
        if input.data.len() < 28 {
            return Err(MediaError::FrameProcessing("Invalid differential encoded data".to_string()));
        }
        let mut frame = read_audio_header(input.data.as_slice());
        let rest = &input.data.as_slice()[28..input.data.len()];
        frame.data = Self::diff_decode(rest);
        assert(rest@ =~= input.data@.skip(28));
        Ok(frame)
    }
}

/// Decoding what the differential codec encodes gives the frame back.
pub proof fn lemma_diff_audio_roundtrip(f: AudioFrame, g: AudioFrame)
    requires
        audio_meta_from(g, diff_audio_bytes(f)),
        g.data@ == diff_decoding(diff_audio_bytes(f).skip(28)),
    ensures
        same_audio_meta(f, g),
        g.data@ == f.data@,
{
    lemma_audio_header_roundtrip(f, g, diff_encoding(f.data@));
    lemma_header_lengths(arbitrary(), f);
    assert(diff_audio_bytes(f).skip(28) =~= diff_encoding(f.data@));
    lemma_diff_roundtrip(f.data@);
}


// ============================================================
// Huffman-style video codec
// ============================================================

/// Occurrences of byte `b` in `d`.
pub open spec fn count_of(d: Seq<u8>, b: u8) -> nat
    decreases d.len(),
{
    if d.len() == 0 {
        0
    } else {
        count_of(d.drop_last(), b) + if d.last() == b {
            1nat
        } else {
            0nat
        }
    }
}

/// In the symbol table of `d`, `a` comes before `b`: more frequent bytes
/// first, equally frequent ones in ascending order.
pub open spec fn ranks_before(d: Seq<u8>, a: u8, b: u8) -> bool {
    count_of(d, a) > count_of(d, b) || (count_of(d, a) == count_of(d, b) && a < b)
}

/// `syms` is the symbol table of `d`: the bytes that occur in `d`, each
/// once, ordered by `ranks_before`.
pub open spec fn is_symbol_table(d: Seq<u8>, syms: Seq<u8>) -> bool {
    &&& syms.len() <= 256
    &&& forall|k: int| 0 <= k < syms.len() ==> count_of(d, #[trigger] syms[k]) > 0
    &&& forall|b: u8| count_of(d, b) > 0 ==> #[trigger] syms.contains(b)
    &&& forall|i: int, j: int|
        0 <= i < j < syms.len() ==> ranks_before(d, #[trigger] syms[i], #[trigger] syms[j])
}

/// The position of `b` in the table `syms`.
pub open spec fn symbol_index(syms: Seq<u8>, b: u8) -> int {
    choose|k: int| 0 <= k < syms.len() && syms[k] == b
}

/// The payload of the Huffman-style encoding: each run of `d` becomes the
/// pair (table position of its byte, run length).
pub open spec fn huffman_pairs(d: Seq<u8>, syms: Seq<u8>) -> Seq<u8>
    decreases d.len(),
{
    if d.len() == 0 {
        Seq::empty()
    } else {
        proof {
            lemma_run_length(d);
        }
        seq![symbol_index(syms, d[0]) as u8, run_length(d) as u8] + huffman_pairs(
            d.skip(run_length(d)),
            syms,
        )
    }
}

/// The Huffman-style encoding of `d` with table `syms`: the table size (2
/// bytes), the table, the length of `d` (8 bytes) and the pairs.
pub open spec fn huffman_encoding_with(d: Seq<u8>, syms: Seq<u8>) -> Seq<u8> {
    spec_u16_to_le_bytes(syms.len() as u16) + syms + spec_u64_to_le_bytes(d.len() as u64)
        + huffman_pairs(d, syms)
}

/// Decoding of pairs against a table; pairs naming no table entry add nothing.
pub open spec fn huffman_pairs_decoding(syms: Seq<u8>, p: Seq<u8>) -> Seq<u8>
    decreases p.len(),
{
    if p.len() < 2 {
        Seq::empty()
    } else {
        (if (p[0] as int) < syms.len() {
            Seq::new(p[1] as nat, |i: int| syms[p[0] as int])
        } else {
            Seq::empty()
        }) + huffman_pairs_decoding(syms, p.skip(2))
    }
}

/// Huffman-style decoding: empty when the table or the length field is cut off.
pub open spec fn huffman_decoding(d: Seq<u8>) -> Seq<u8> {
    if d.len() < 10 {
        Seq::empty()
    } else {
        let n = spec_u16_from_le_bytes(d.subrange(0, 2)) as int;
        if d.len() < 2 + n + 8 {
            Seq::empty()
        } else {
            huffman_pairs_decoding(d.subrange(2, 2 + n), d.skip(2 + n + 8))
        }
    }
}

pub proof fn lemma_count_step(d: Seq<u8>, i: int, b: u8)
    requires
        0 <= i < d.len(),
    ensures
        count_of(d.take(i + 1), b) == count_of(d.take(i), b) + if d[i] == b {
            1nat
        } else {
            0nat
        },
{
    assert(d.take(i + 1).drop_last() =~= d.take(i));
}

pub proof fn lemma_count_prefix(d: Seq<u8>, i: int, b: u8)
    requires
        0 <= i <= d.len(),
    ensures
        count_of(d.take(i), b) <= count_of(d, b),
    decreases d.len() - i,
{
    if i < d.len() {
        lemma_count_step(d, i, b);
        lemma_count_prefix(d, i + 1, b);
    } else {
        assert(d.take(i) =~= d);
    }
}

/// Every byte of `d` occurs in it.
pub proof fn lemma_count_positive(d: Seq<u8>, i: int)
    requires
        0 <= i < d.len(),
    ensures
        count_of(d, d[i]) > 0,
    decreases d.len(),
{
    if i < d.len() - 1 {
        lemma_count_positive(d.drop_last(), i);
    }
}

/// A symbol table names each byte once.
pub proof fn lemma_table_distinct(d: Seq<u8>, syms: Seq<u8>, i: int, j: int)
    requires
        is_symbol_table(d, syms),
        0 <= i < syms.len(),
        0 <= j < syms.len(),
        syms[i] == syms[j],
    ensures
        i == j,
{
    if i < j {
        assert(ranks_before(d, syms[i], syms[j]));
    } else if j < i {
        assert(ranks_before(d, syms[j], syms[i]));
    }
}

pub proof fn lemma_huffman_pairs_roundtrip(d: Seq<u8>, syms: Seq<u8>, s: Seq<u8>)
    requires
        is_symbol_table(d, syms),
        forall|k: int| 0 <= k < s.len() ==> syms.contains(#[trigger] s[k]),
    ensures
        huffman_pairs_decoding(syms, huffman_pairs(s, syms)) == s,
    decreases s.len(),
{
    if s.len() == 0 {
        assert(huffman_pairs(s, syms) =~= Seq::<u8>::empty());
        assert(s =~= Seq::<u8>::empty());
    } else {
        lemma_run_length(s);
        let n = run_length(s);
        assert(syms.contains(s[0]));
        let k = symbol_index(syms, s[0]);
        let rest = s.skip(n);
        assert forall|j: int| 0 <= j < rest.len() implies syms.contains(#[trigger] rest[j]) by {
            assert(rest[j] == s[j + n]);
        }
        lemma_huffman_pairs_roundtrip(d, syms, rest);
        let p = huffman_pairs(s, syms);
        assert(p == seq![k as u8, n as u8] + huffman_pairs(rest, syms));
        assert(p.skip(2) =~= huffman_pairs(rest, syms));
        assert(Seq::new(p[1] as nat, |i: int| syms[p[0] as int]) =~= s.take(n));
        assert(s.take(n) + s.skip(n) =~= s);
    }
}

/// Decoding the Huffman-style encoding of any bytes with their symbol table
/// gives them back.
pub proof fn lemma_huffman_roundtrip(d: Seq<u8>, syms: Seq<u8>)
    requires
        is_symbol_table(d, syms),
    ensures
        huffman_decoding(huffman_encoding_with(d, syms)) == d,
{
    vstd::bytes::lemma_auto_spec_u16_to_from_le_bytes();
    vstd::bytes::lemma_auto_spec_u64_to_from_le_bytes();
    let e = huffman_encoding_with(d, syms);
    let n = syms.len() as int;
    assert(e.subrange(0, 2) =~= spec_u16_to_le_bytes(syms.len() as u16));
    assert(e.subrange(2, 2 + n) =~= syms);
    assert(e.skip(2 + n + 8) =~= huffman_pairs(d, syms));
    assert forall|k: int| 0 <= k < d.len() implies syms.contains(#[trigger] d[k]) by {
        lemma_count_positive(d, k);
    }
    lemma_huffman_pairs_roundtrip(d, syms, d);
}

/// Video codec with a frequency-ordered symbol table and run-length pairs.
#[derive(Debug, Clone, Default)]
pub struct HuffmanVideoCodec;

impl HuffmanVideoCodec {
    pub fn new() -> (r: Self)
        ensures
            r == HuffmanVideoCodec,
    {
        HuffmanVideoCodec
    }

    /// The symbol table of `data`, built by inserting each occurring byte,
    /// in ascending order, after every byte at least as frequent.
    fn symbol_table(data: &[u8]) -> (r: (Vec<u8>, Vec<u32>))
        requires
            forall|b: u8| count_of(data@, b) <= u32::MAX,
        ensures
            is_symbol_table(data@, r.0@),
            r.1@.len() == 256,
            forall|b: u8| r.1@[b as int] == count_of(data@, b),
    {
        let mut freq: Vec<u32> = Vec::new();
        let mut c: usize = 0;
        while c < 256
            invariant
                c <= 256,
                freq@.len() == c,
                forall|k: int| 0 <= k < c ==> freq@[k] == 0,
            decreases 256 - c,
        {
            freq.push(0);
            c = c + 1;
        }
        let mut i: usize = 0;
        while i < data.len()
            invariant
                i <= data@.len(),
                freq@.len() == 256,
                forall|b: u8| count_of(data@, b) <= u32::MAX,
                forall|b: u8| #[trigger] freq@[b as int] == count_of(data@.take(i as int), b),
            decreases data@.len() - i,
        {
            let b = data[i];
            proof {
                lemma_count_prefix(data@, i + 1, b);
                assert forall|x: u8| #[trigger] freq@[x as int] + (if data@[i as int] == x {
                    1nat
                } else {
                    0nat
                }) == count_of(data@.take(i + 1), x) by {
                    lemma_count_step(data@, i as int, x);
                }
            }
            let f = freq[b as usize];
            freq.set(b as usize, f + 1);
            i = i + 1;
        }
        assert(data@.take(data@.len() as int) =~= data@);
        let mut syms: Vec<u8> = Vec::new();
        let mut c: usize = 0;
        while c < 256
            invariant
                c <= 256,
                freq@.len() == 256,
                forall|b: u8| #[trigger] freq@[b as int] == count_of(data@, b),
                syms@.len() <= c,
                forall|k: int|
                    0 <= k < syms@.len() ==> count_of(data@, #[trigger] syms@[k]) > 0 && syms@[k]
                        < c,
                forall|b: u8| (b as int) < c && count_of(data@, b) > 0 ==> #[trigger] syms@.contains(b),
                forall|x: int, y: int|
                    0 <= x < y < syms@.len() ==> ranks_before(
                        data@,
                        #[trigger] syms@[x],
                        #[trigger] syms@[y],
                    ),
            decreases 256 - c,
        {
            let b = c as u8;
            let f = freq[c];
            assert(f == count_of(data@, b));
            if f > 0 {
                let mut p: usize = 0;
                while p < syms.len() && freq[syms[p] as usize] >= f
                    invariant
                        p <= syms@.len(),
                        freq@.len() == 256,
                        forall|k: int| 0 <= k < p ==> freq@[#[trigger] syms@[k] as int] >= f,
                    decreases syms@.len() - p,
                {
                    p = p + 1;
                }
                let ghost old_syms = syms@;
                syms.insert(p, b);
                proof {
                    assert(syms@ == old_syms.insert(p as int, b));
                    assert forall|x: int, y: int|
                        0 <= x < y < syms@.len() implies ranks_before(
                        data@,
                        #[trigger] syms@[x],
                        #[trigger] syms@[y],
                    ) by {
                        if y < p {
                            assert(syms@[x] == old_syms[x] && syms@[y] == old_syms[y]);
                        } else if y == p {
                            assert(syms@[x] == old_syms[x]);
                            assert(freq@[old_syms[x] as int] >= f);
                        } else if x == p {
                            assert(syms@[y] == old_syms[y - 1]);
                            assert(freq@[old_syms[p as int] as int] < f);
                            if p < y - 1 {
                                assert(ranks_before(data@, old_syms[p as int], old_syms[y - 1]));
                            }
                        } else if x < p {
                            assert(syms@[x] == old_syms[x] && syms@[y] == old_syms[y - 1]);
                        } else {
                            assert(syms@[x] == old_syms[x - 1] && syms@[y] == old_syms[y - 1]);
                        }
                    }
                    assert forall|x: u8| (x as int) < c + 1 && count_of(data@, x) > 0 implies #[trigger] syms@.contains(x) by {
                        if x == b {
                            assert(syms@[p as int] == b);
                        } else {
                            assert(old_syms.contains(x));
                            let k = choose|k: int| 0 <= k < old_syms.len() && old_syms[k] == x;
                            if k < p {
                                assert(syms@[k] == x);
                            } else {
                                assert(syms@[k + 1] == x);
                            }
                        }
                    }
                }
            }
            c = c + 1;
        }
        proof {
            assert forall|b: u8| count_of(data@, b) > 0 implies #[trigger] syms@.contains(b) by {
                assert((b as int) < 256);
            }
        }
        (syms, freq)
    }

    /// Huffman-style encoding of `data`.
    pub fn huff_encode(data: &[u8]) -> (r: Vec<u8>)
        requires
            forall|b: u8| count_of(data@, b) <= u32::MAX,
        ensures
            exists|syms: Seq<u8>| is_symbol_table(data@, syms) && r@ == huffman_encoding_with(data@, syms),
    {
        let (symbols, _freq) = Self::symbol_table(data);
        let ghost syms = symbols@;
        let num_symbols = symbols.len();
        let mut result: Vec<u8> = Vec::new();
        append_bytes(&mut result, u16_to_le_bytes(num_symbols as u16).as_slice());
        append_bytes(&mut result, symbols.as_slice());
        // Table position of each byte.
        let mut sym_to_idx: Vec<u8> = Vec::new();
        let mut c: usize = 0;
        while c < 256
            invariant
                c <= 256,
                sym_to_idx@.len() == c,
            decreases 256 - c,
        {
            sym_to_idx.push(0);
            c = c + 1;
        }
        let mut k: usize = 0;
        while k < num_symbols
            invariant
                k <= num_symbols == syms.len(),
                symbols@ == syms,
                is_symbol_table(data@, syms),
                sym_to_idx@.len() == 256,
                forall|j: int| 0 <= j < k ==> sym_to_idx@[#[trigger] syms[j] as int] == j,
            decreases num_symbols - k,
        {
            proof {
                assert forall|j: int| 0 <= j < k implies syms[j] != syms[k as int] by {
                    if syms[j] == syms[k as int] {
                        lemma_table_distinct(data@, syms, j, k as int);
                    }
                }
            }
            sym_to_idx.set(symbols[k] as usize, k as u8);
            k = k + 1;
        }
        // Payload: (table position, run length) for each run.
        let mut payload: Vec<u8> = Vec::new();
        let mut i: usize = 0;
        assert(data@.skip(0) =~= data@);
        while i < data.len()
            invariant
                i <= data@.len(),
                is_symbol_table(data@, syms),
                sym_to_idx@.len() == 256,
                forall|j: int| 0 <= j < syms.len() ==> sym_to_idx@[#[trigger] syms[j] as int] == j,
                huffman_pairs(data@, syms) == payload@ + huffman_pairs(data@.skip(i as int), syms),
            decreases data@.len() - i,
        {
            let ghost start = i as int;
            let ghost d = data@.skip(start);
            let ghost before = payload@;
            let byte = data[i];
            let mut count: u8 = 1;
            proof {
                lemma_run_length(d);
            }
            while i < data.len() - 1 && data[i + 1] == byte && count < 255
                invariant
                    0 <= start < data@.len(),
                    d == data@.skip(start),
                    byte == d[0],
                    1 <= count <= 255,
                    i + 1 == start + count,
                    i < data@.len(),
                    forall|j: int| 0 <= j < count ==> #[trigger] d[j] == d[0],
                    run_length_from(d, count as int) == run_length(d),
                decreases data@.len() - i,
            {
                let ghost oc = count as int;
                assert(d.len() == data@.len() - start);
                assert(d[oc] == data@[start + oc]);
                assert(run_length_from(d, oc) == run_length_from(d, oc + 1));
                count = count + 1;
                i = i + 1;
            }
            assert(run_length_from(d, count as int) == count as int);
            proof {
                lemma_count_positive(data@, start);
                assert(syms.contains(byte));
                let k = choose|k: int| 0 <= k < syms.len() && syms[k] == byte;
                let k2 = symbol_index(syms, byte);
                lemma_table_distinct(data@, syms, k, k2);
                assert(sym_to_idx@[byte as int] == symbol_index(syms, byte));
            }
            payload.push(sym_to_idx[byte as usize]);
            payload.push(count);
            i = i + 1;
            assert(d.skip(count as int) =~= data@.skip(i as int));
            assert(huffman_pairs(d, syms) == seq![symbol_index(syms, byte) as u8, count]
                + huffman_pairs(d.skip(count as int), syms));
            assert(before + (seq![symbol_index(syms, byte) as u8, count] + huffman_pairs(
                data@.skip(i as int),
                syms,
            )) =~= payload@ + huffman_pairs(data@.skip(i as int), syms));
        }
        assert(data@.skip(data@.len() as int) =~= Seq::<u8>::empty());
        append_bytes(&mut result, u64_to_le_bytes(data.len() as u64).as_slice());
        append_bytes(&mut result, payload.as_slice());
        assert(result@ =~= huffman_encoding_with(data@, syms));
        result
    }

    /// Huffman-style decoding.
    pub fn huff_decode(data: &[u8]) -> (r: Vec<u8>)
        ensures
            r@ == huffman_decoding(data@),
    {
        if data.len() < 10 {
            return Vec::new();
        }
        let num_symbols = u16_from_le_bytes(&data[0..2]) as usize;
        if data.len() < 2 + num_symbols + 8 {
            return Vec::new();
        }
        let symbols = &data[2..2 + num_symbols];
        let offset_after = 2 + num_symbols;
        let _original_len = u64_from_le_bytes(&data[offset_after..offset_after + 8]);
        let payload = &data[offset_after + 8..data.len()];
        let mut result: Vec<u8> = Vec::new();
        let mut i: usize = 0;
        assert(payload@.skip(0) =~= payload@);
        while i < payload.len() && payload.len() - i > 1
            invariant
                i <= payload@.len(),
                huffman_pairs_decoding(symbols@, payload@) == result@ + huffman_pairs_decoding(
                    symbols@,
                    payload@.skip(i as int),
                ),
            decreases payload@.len() - i,
        {
            let ghost p = payload@.skip(i as int);
            let ghost before = result@;
            let sym_idx = payload[i] as usize;
            let count = payload[i + 1];
            if sym_idx < symbols.len() {
                let sym = symbols[sym_idx];
                let mut k: u8 = 0;
                while k < count
                    invariant
                        k <= count,
                        result@ == before + Seq::new(k as nat, |j: int| sym),
                    decreases count - k,
                {
                    result.push(sym);
                    k = k + 1;
                    assert(result@ =~= before + Seq::new(k as nat, |j: int| sym));
                }
                assert(Seq::new(p[1] as nat, |j: int| symbols@[p[0] as int]) =~= Seq::new(
                    count as nat,
                    |j: int| sym,
                ));
            } else {
                assert(result@ =~= before + Seq::<u8>::empty());
            }
            i = i + 2;
            assert(p.skip(2) =~= payload@.skip(i as int));
        }
        assert(payload@ =~= data@.skip(2 + num_symbols + 8));
        result
    }
}

/// The bytes that the Huffman-style video codec produces for `f` with table `syms`.
pub open spec fn huffman_video_bytes(f: VideoFrame, syms: Seq<u8>) -> Seq<u8> {
    video_header(f) + huffman_encoding_with(f.data@, syms)
}

impl Codec for HuffmanVideoCodec {
    open spec fn decodable(&self, input: &EncodedData) -> bool {
        true
    }

    /// Frames that hold a byte value more than `u32::MAX` times overflow the
    /// frequency counters.
    open spec fn encodable(&self, input: &VideoFrame) -> bool {
        forall|b: u8| count_of(input.data@, b) <= u32::MAX
    }

    type Input = VideoFrame;
    type Output = EncodedData;

    fn name(&self) -> (r: &str)
        ensures
            r@ == "huffman"@,
    {
        "huffman"
    }

    fn encode(&mut self, input: &VideoFrame) -> (r: Result<EncodedData, MediaError>)
        ensures
            r matches Ok(e) && e.codec@ == "huffman"@ && e.original_size == input.data@.len()
                && e.encoded_size == e.data@.len() && exists|syms: Seq<u8>|
                is_symbol_table(input.data@, syms) && e.data@ == huffman_video_bytes(*input, syms),
    {
        let original_size = input.data.len();
        let mut data: Vec<u8> = Vec::new();
        push_video_header(&mut data, input);
        let encoded = Self::huff_encode(input.data.as_slice());
        append_bytes(&mut data, encoded.as_slice());
        proof {
            let syms = choose|syms: Seq<u8>|
                is_symbol_table(input.data@, syms) && encoded@ == huffman_encoding_with(
                    input.data@,
                    syms,
                );
            assert(data@ == huffman_video_bytes(*input, syms));
        }
        let encoded_size = data.len();
        Ok(EncodedData { codec: "huffman".to_string(), original_size, encoded_size, data })
    }

    fn decode(&mut self, input: &EncodedData) -> (r: Result<VideoFrame, MediaError>)
        ensures
            r is Err <==> input.data@.len() < 29,
            r matches Err(e) ==> e is FrameProcessing,
            r matches Ok(f) ==> video_meta_from(f, input.data@) && f.data@ == huffman_decoding(
                input.data@.skip(29),
            ),
    {
        if input.data.len() < 29 {
            return Err(MediaError::FrameProcessing("Invalid huffman encoded data".to_string()));
        }
        let mut frame = read_video_header(input.data.as_slice());
        let rest = &input.data.as_slice()[29..input.data.len()];
        frame.data = Self::huff_decode(rest);
        assert(rest@ =~= input.data@.skip(29));
        Ok(frame)
    }
}

/// Decoding what the Huffman-style codec encodes gives the frame back.
pub proof fn lemma_huffman_video_roundtrip(f: VideoFrame, syms: Seq<u8>, g: VideoFrame)
    requires
        is_symbol_table(f.data@, syms),
        video_meta_from(g, huffman_video_bytes(f, syms)),
        g.data@ == huffman_decoding(huffman_video_bytes(f, syms).skip(29)),
    ensures
        same_video_meta(f, g),
        g.data@ == f.data@,
{
    lemma_video_header_roundtrip(f, g, huffman_encoding_with(f.data@, syms));
    lemma_header_lengths(f, arbitrary());
    assert(huffman_video_bytes(f, syms).skip(29) =~= huffman_encoding_with(f.data@, syms));
    lemma_huffman_roundtrip(f.data@, syms);
}

} // verus!
