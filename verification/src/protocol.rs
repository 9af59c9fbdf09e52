//! Frame types and message definitions of the MMC TCP protocol.
//!
//! A frame on the wire is a 2-byte frame type (big-endian), a 4-byte payload
//! length (big-endian) and the payload itself.

use vstd::prelude::*;
use crate::text::{decimal, decimal_string, io_error_text, prefixed};
use crate::bytes_util::{append_bytes, be16, be16_value, be32, be32_value, copy_range, lemma_be16_roundtrip, lemma_be32_roundtrip, push_be16, push_be32};

verus! {

broadcast use vstd::string::to_string_from_display_ensures_for_str;

#[verifier::external_type_specification]
#[verifier::external_body]
pub struct ExIoError(std::io::Error);

/// Errors of the frame protocol.
#[derive(Debug)]
pub enum ProtocolError {
    Io(std::io::Error),
    UnknownFrameType(u16),
    InvalidFrame(String),
    BufferTooSmall { need: usize, got: usize },
    Serialization(String),
}

/// The message of an error other than an I/O error: its kind, then its
/// detail.
pub open spec fn protocol_error_message(e: ProtocolError) -> Seq<char> {
    match e {
        ProtocolError::Io(_) => "IO error: "@,
        ProtocolError::UnknownFrameType(t) => "Unknown frame type: "@ + decimal(t as nat),
        ProtocolError::InvalidFrame(m) => "Invalid frame: "@ + m@,
        ProtocolError::BufferTooSmall { need, got } => "Buffer too small: need "@ + decimal(need as nat) + ", got "@
            + decimal(got as nat),
        ProtocolError::Serialization(m) => "Serialization error: "@ + m@,
    }
}

impl ProtocolError {
    /// The error's message; an I/O error's text follows its prefix.
    pub fn to_string(&self) -> (r: String)
        ensures
            !(self is Io) ==> r@ == protocol_error_message(*self),
            self is Io ==> protocol_error_message(*self).is_prefix_of(r@),
    {
        match self {
            ProtocolError::Io(e) => {
                let text = io_error_text(e);
                let r = prefixed("IO error: ", &text);
                assert(r@.subrange(0, "IO error: "@.len() as int) =~= "IO error: "@);
                r
            },
            ProtocolError::UnknownFrameType(t) => {
                let d = decimal_string(*t as u64);
                prefixed("Unknown frame type: ", &d)
            },
            ProtocolError::InvalidFrame(m) => prefixed("Invalid frame: ", m),
            ProtocolError::BufferTooSmall { need, got } => {
                let n = decimal_string(*need as u64);
                let g = decimal_string(*got as u64);
                let mut r = prefixed("Buffer too small: need ", &n);
                r.append(", got ");
                r.append(g.as_str());
                r
            },
            ProtocolError::Serialization(m) => prefixed("Serialization error: ", m),
        }
    }
}

/// Frame types of the custom TCP protocol.
#[derive(Debug, Clone, Copy, PartialEq, Eq, Structural)]
pub enum FrameType {
    PairingRequest,
    PairingResponse,
    FileManifestRequest,
    FileManifestResponse,
    ChunkData,
    ChunkAck,
    TransferComplete,
    TransferError,
    TouchEvent,
    KeyEvent,
    ClipboardContent,
    VideoFrame,
    AudioFrame,
    VideoConfig,
    AudioConfig,
    Heartbeat,
    Ping,
    Pong,
}

impl FrameType {
    /// The wire code of each frame type.
    pub open spec fn code(self) -> u16 {
        match self {
            FrameType::PairingRequest => 0x0101,
            FrameType::PairingResponse => 0x0102,
            FrameType::FileManifestRequest => 0x0201,
            FrameType::FileManifestResponse => 0x0202,
            FrameType::ChunkData => 0x0203,
            FrameType::ChunkAck => 0x0204,
            FrameType::TransferComplete => 0x0205,
            FrameType::TransferError => 0x0206,
            FrameType::TouchEvent => 0x0301,
            FrameType::KeyEvent => 0x0302,
            FrameType::ClipboardContent => 0x0303,
            FrameType::VideoFrame => 0x0401,
            FrameType::AudioFrame => 0x0402,
            FrameType::VideoConfig => 0x0403,
            FrameType::AudioConfig => 0x0404,
            FrameType::Heartbeat => 0xFF01,
            FrameType::Ping => 0xFF02,
            FrameType::Pong => 0xFF03,
        }
    }

    /// The variant's name, as `Debug` prints it.
    pub open spec fn label(self) -> Seq<char> {
        match self {
            FrameType::PairingRequest => "PairingRequest"@,
            FrameType::PairingResponse => "PairingResponse"@,
            FrameType::FileManifestRequest => "FileManifestRequest"@,
            FrameType::FileManifestResponse => "FileManifestResponse"@,
            FrameType::ChunkData => "ChunkData"@,
            FrameType::ChunkAck => "ChunkAck"@,
            FrameType::TransferComplete => "TransferComplete"@,
            FrameType::TransferError => "TransferError"@,
            FrameType::TouchEvent => "TouchEvent"@,
            FrameType::KeyEvent => "KeyEvent"@,
            FrameType::ClipboardContent => "ClipboardContent"@,
            FrameType::VideoFrame => "VideoFrame"@,
            FrameType::AudioFrame => "AudioFrame"@,
            FrameType::VideoConfig => "VideoConfig"@,
            FrameType::AudioConfig => "AudioConfig"@,
            FrameType::Heartbeat => "Heartbeat"@,
            FrameType::Ping => "Ping"@,
            FrameType::Pong => "Pong"@,
        }
    }

    /// The variant's name.
    pub fn name(&self) -> (r: &'static str)
        ensures
            r@ == self.label(),
    {
        match self {
            FrameType::PairingRequest => "PairingRequest",
            FrameType::PairingResponse => "PairingResponse",
            FrameType::FileManifestRequest => "FileManifestRequest",
            FrameType::FileManifestResponse => "FileManifestResponse",
            FrameType::ChunkData => "ChunkData",
            FrameType::ChunkAck => "ChunkAck",
            FrameType::TransferComplete => "TransferComplete",
            FrameType::TransferError => "TransferError",
            FrameType::TouchEvent => "TouchEvent",
            FrameType::KeyEvent => "KeyEvent",
            FrameType::ClipboardContent => "ClipboardContent",
            FrameType::VideoFrame => "VideoFrame",
            FrameType::AudioFrame => "AudioFrame",
            FrameType::VideoConfig => "VideoConfig",
            FrameType::AudioConfig => "AudioConfig",
            FrameType::Heartbeat => "Heartbeat",
            FrameType::Ping => "Ping",
            FrameType::Pong => "Pong",
        }
    }

    /// The wire code of this frame type.
    pub fn to_u16(&self) -> (r: u16)
        ensures
            r == self.code(),
            ((r / 0x100) as u8, (r % 0x100) as u8) == wire_type_bytes(*self),
    {
        match self {
            FrameType::PairingRequest => 0x0101,
            FrameType::PairingResponse => 0x0102,
            FrameType::FileManifestRequest => 0x0201,
            FrameType::FileManifestResponse => 0x0202,
            FrameType::ChunkData => 0x0203,
            FrameType::ChunkAck => 0x0204,
            FrameType::TransferComplete => 0x0205,
            FrameType::TransferError => 0x0206,
            FrameType::TouchEvent => 0x0301,
            FrameType::KeyEvent => 0x0302,
            FrameType::ClipboardContent => 0x0303,
            FrameType::VideoFrame => 0x0401,
            FrameType::AudioFrame => 0x0402,
            FrameType::VideoConfig => 0x0403,
            FrameType::AudioConfig => 0x0404,
            FrameType::Heartbeat => 0xFF01,
            FrameType::Ping => 0xFF02,
            FrameType::Pong => 0xFF03,
        }
    }

    /// The frame type whose code is `v`, if there is one.
    pub fn from_u16(v: u16) -> (r: Option<FrameType>)
        ensures
            match r {
                Some(t) => t.code() == v,
                None => forall|t: FrameType| t.code() != v,
            },
            r matches Some(t) ==> wire_type_bytes(t) == ((v / 0x100) as u8, (v % 0x100) as u8),
    {
        match v {
            0x0101 => Some(FrameType::PairingRequest),
            0x0102 => Some(FrameType::PairingResponse),
            0x0201 => Some(FrameType::FileManifestRequest),
            0x0202 => Some(FrameType::FileManifestResponse),
            0x0203 => Some(FrameType::ChunkData),
            0x0204 => Some(FrameType::ChunkAck),
            0x0205 => Some(FrameType::TransferComplete),
            0x0206 => Some(FrameType::TransferError),
            0x0301 => Some(FrameType::TouchEvent),
            0x0302 => Some(FrameType::KeyEvent),
            0x0303 => Some(FrameType::ClipboardContent),
            0x0401 => Some(FrameType::VideoFrame),
            0x0402 => Some(FrameType::AudioFrame),
            0x0403 => Some(FrameType::VideoConfig),
            0x0404 => Some(FrameType::AudioConfig),
            0xFF01 => Some(FrameType::Heartbeat),
            0xFF02 => Some(FrameType::Ping),
            0xFF03 => Some(FrameType::Pong),
            _ => None,
        }
    }
}

/// Distinct frame types have distinct codes.
pub proof fn lemma_frame_code_injective(a: FrameType, b: FrameType)
    ensures
        a.code() == b.code() ==> a == b,
{
}

/// The two type bytes the protocol puts first on the wire for each frame
/// type: the group (pairing 0x01, file transfer 0x02, input and clipboard
/// 0x03, media 0x04, control 0xFF), then the type's number within it.
pub open spec fn wire_type_bytes(t: FrameType) -> (u8, u8) {
    match t {
        FrameType::PairingRequest => (0x01, 0x01),
        FrameType::PairingResponse => (0x01, 0x02),
        FrameType::FileManifestRequest => (0x02, 0x01),
        FrameType::FileManifestResponse => (0x02, 0x02),
        FrameType::ChunkData => (0x02, 0x03),
        FrameType::ChunkAck => (0x02, 0x04),
        FrameType::TransferComplete => (0x02, 0x05),
        FrameType::TransferError => (0x02, 0x06),
        FrameType::TouchEvent => (0x03, 0x01),
        FrameType::KeyEvent => (0x03, 0x02),
        FrameType::ClipboardContent => (0x03, 0x03),
        FrameType::VideoFrame => (0x04, 0x01),
        FrameType::AudioFrame => (0x04, 0x02),
        FrameType::VideoConfig => (0x04, 0x03),
        FrameType::AudioConfig => (0x04, 0x04),
        FrameType::Heartbeat => (0xFF, 0x01),
        FrameType::Ping => (0xFF, 0x02),
        FrameType::Pong => (0xFF, 0x03),
    }
}

/// Every frame of a type, whatever its payload, starts on the wire with
/// that type's two protocol bytes.
pub proof fn lemma_encoded_type_bytes(t: FrameType, payload: Seq<u8>)
    ensures
        frame_bytes(t, payload).len() >= 2,
        (frame_bytes(t, payload)[0], frame_bytes(t, payload)[1]) == wire_type_bytes(t),
{
    let c = t.code();
    assert(frame_bytes(t, payload)[0] == (c / 0x100) as u8);
    assert(frame_bytes(t, payload)[1] == (c % 0x100) as u8);
}

/// Every complete frame whose first two bytes are a type's protocol bytes
/// decodes as a frame of that type, with the payload its length field
/// gives.
pub proof fn lemma_decoded_type_bytes(t: FrameType, buf: Seq<u8>)
    requires
        buf.len() >= 6,
        (buf[0], buf[1]) == wire_type_bytes(t),
        buf.len() - 6 >= header_len_field(buf),
    ensures
        decode_result(buf) == Some(Some((t, buf.subrange(6, 6 + header_len_field(buf))))),
{
    assert(header_type_field(buf) == t.code());
    let u = choose|u: FrameType| u.code() == header_type_field(buf);
    assert(u.code() == header_type_field(buf));
    lemma_frame_code_injective(u, t);
}

/// A frame of the custom TCP protocol.
#[derive(Debug, Clone)]
pub struct Frame {
    pub frame_type: FrameType,
    pub payload: Vec<u8>,
}

/// Size of the frame header in bytes.
pub const FRAME_HEADER_SIZE: usize = 6;

/// The bytes of a frame on the wire: type code, payload length (taken
/// modulo 2^32, as the length field holds 32 bits) and payload.
pub open spec fn frame_bytes(frame_type: FrameType, payload: Seq<u8>) -> Seq<u8> {
    be16(frame_type.code()) + be32(payload.len() as u32) + payload
}

/// The length field of a header that starts `buf`.
pub open spec fn header_len_field(buf: Seq<u8>) -> u32 {
    be32_value(buf[2], buf[3], buf[4], buf[5])
}

/// The type field of a header that starts `buf`.
pub open spec fn header_type_field(buf: Seq<u8>) -> u16 {
    be16_value(buf[0], buf[1])
}

/// What decoding `buf` gives: `None` while the buffer holds no complete
/// frame, an error for an unknown frame type, else the first frame.
pub open spec fn decode_result(buf: Seq<u8>) -> Option<Option<(FrameType, Seq<u8>)>> {
    if buf.len() < 6 {
        Some(None)
    } else if forall|t: FrameType| t.code() != header_type_field(buf) {
        None
    } else if buf.len() - 6 < header_len_field(buf) {
        Some(None)
    } else {
        Some(Some((
            choose|t: FrameType| t.code() == header_type_field(buf),
            buf.subrange(6, 6 + header_len_field(buf)),
        )))
    }
}

impl Frame {
    pub const HEADER_SIZE: usize = 6;

    pub fn new(frame_type: FrameType, payload: Vec<u8>) -> (r: Frame)
        ensures
            r.frame_type == frame_type,
            r.payload@ == payload@,
    {
        Frame { frame_type, payload }
    }

    /// The wire bytes of this frame.
    pub fn encode(&self) -> (r: Vec<u8>)
        ensures
            r@ == frame_bytes(self.frame_type, self.payload@),
    {
        let mut buf: Vec<u8> = Vec::new();
        push_be16(&mut buf, self.frame_type.to_u16());
        push_be32(&mut buf, self.payload.len() as u32);
        append_bytes(&mut buf, self.payload.as_slice());
        buf
    }

    /// Decodes the frame at the start of `buf`.
    pub fn decode(buf: &[u8]) -> (r: Result<Option<Frame>, ProtocolError>)
        ensures
            decode_result(buf@) is None <==> r is Err,
            r matches Err(e) ==> e == ProtocolError::UnknownFrameType(header_type_field(buf@)),
            decode_result(buf@) matches Some(None) ==> r matches Ok(None),
            decode_result(buf@) matches Some(Some((t, p))) ==> r matches Ok(Some(f)) && f.frame_type
                == t && f.payload@ == p,
    {
        if buf.len() < 6 {
            return Ok(None);
        }
        let type_val: u16 = (buf[0] as u16) * 0x100 + (buf[1] as u16);
        let payload_len: u32 = (buf[2] as u32) * 0x100_0000 + (buf[3] as u32) * 0x1_0000 + (
        buf[4] as u32) * 0x100 + (buf[5] as u32);
        let frame_type = match FrameType::from_u16(type_val) {
            Some(t) => t,
            None => {
                return Err(ProtocolError::UnknownFrameType(type_val));
            },
        };
        let remaining = buf.len() - 6;
        if remaining < payload_len as usize {
            return Ok(None);
        }
        let payload = copy_range(buf, 6, 6 + payload_len as usize);
        proof {
            lemma_frame_code_injective(frame_type, choose|t: FrameType| t.code() == type_val);
        }
        Ok(Some(Frame { frame_type, payload }))
    }

    pub fn frame_type(&self) -> (r: FrameType)
        ensures
            r == self.frame_type,
    {
        self.frame_type
    }

    pub fn into_payload(self) -> (r: Vec<u8>)
        ensures
            r@ == self.payload@,
    {
        self.payload
    }
}

/// Decoding the encoding of a frame gives the frame back, also when more
/// bytes follow it.
pub proof fn lemma_frame_roundtrip(frame_type: FrameType, payload: Seq<u8>, rest: Seq<u8>)
    requires
        payload.len() <= u32::MAX,
    ensures
        decode_result(frame_bytes(frame_type, payload) + rest) == Some(Some((frame_type, payload))),
{
    let buf = frame_bytes(frame_type, payload) + rest;
    lemma_be16_roundtrip(frame_type.code());
    lemma_be32_roundtrip(payload.len() as u32);
    assert(buf[0] == be16(frame_type.code())[0]);
    assert(buf[1] == be16(frame_type.code())[1]);
    assert(buf[2] == be32(payload.len() as u32)[0]);
    assert(buf[3] == be32(payload.len() as u32)[1]);
    assert(buf[4] == be32(payload.len() as u32)[2]);
    assert(buf[5] == be32(payload.len() as u32)[3]);
    assert(header_type_field(buf) == frame_type.code());
    assert(header_len_field(buf) == payload.len());
    let t = choose|t: FrameType| t.code() == header_type_field(buf);
    lemma_frame_code_injective(t, frame_type);
    assert(buf.subrange(6, 6 + payload.len() as int) =~= payload);
}

/// A buffer shorter than a whole frame decodes to nothing yet.
pub proof fn lemma_frame_prefix_incomplete(frame_type: FrameType, payload: Seq<u8>, n: int)
    requires
        payload.len() <= u32::MAX,
        0 <= n < frame_bytes(frame_type, payload).len(),
    ensures
        decode_result(frame_bytes(frame_type, payload).subrange(0, n)) == Some(
            None::<(FrameType, Seq<u8>)>,
        ),
{
    let full = frame_bytes(frame_type, payload);
    let buf = full.subrange(0, n);
    if n >= 6 {
        lemma_be16_roundtrip(frame_type.code());
        lemma_be32_roundtrip(payload.len() as u32);
        assert(buf[0] == full[0] && buf[1] == full[1] && buf[2] == full[2]);
        assert(buf[3] == full[3] && buf[4] == full[4] && buf[5] == full[5]);
        assert(header_type_field(buf) == frame_type.code());
        assert(header_len_field(buf) == payload.len());
    }
}


/// Parses a frame header: the frame type and the payload length.
pub fn parse_header(header: &[u8]) -> (r: Result<(FrameType, u32), ProtocolError>)
    requires
        header@.len() >= 6,
    ensures
        match r {
            Ok((t, n)) => t.code() == header_type_field(header@) && n == header_len_field(header@),
            Err(e) => e == ProtocolError::UnknownFrameType(header_type_field(header@)) && forall|
                t: FrameType,
            | t.code() != header_type_field(header@),
        },
{
    let type_val: u16 = (header[0] as u16) * 0x100 + (header[1] as u16);
    let payload_len: u32 = (header[2] as u32) * 0x100_0000 + (header[3] as u32) * 0x1_0000 + (
    header[4] as u32) * 0x100 + (header[5] as u32);
    match FrameType::from_u16(type_val) {
        Some(t) => Ok((t, payload_len)),
        None => Err(ProtocolError::UnknownFrameType(type_val)),
    }
}

// ============================================================
// Protocol messages
// ============================================================

/// Device information.
#[derive(Debug, Clone)]
pub struct DeviceInfo {
    pub id: String,
    pub name: String,
    pub device_type: String,
    pub os_version: String,
    pub app_version: String,
    pub ip: String,
    pub port: u16,
}

/// Pairing request.
#[derive(Debug, Clone)]
pub struct PairingRequest {
    pub pairing_id: String,
    pub device_id: String,
    pub device_name: String,
    pub public_key: String,
    pub capabilities: Capabilities,
}

/// Capabilities offered by a device.
#[derive(Debug, Clone, Copy, Default, PartialEq, Eq, Structural)]
pub struct Capabilities {
    pub file_transfer: bool,
    pub screen_mirror: bool,
    pub remote_control: bool,
    pub clipboard_sync: bool,
}

/// Pairing response.
#[derive(Debug, Clone)]
pub struct PairingResponse {
    pub pairing_id: String,
    pub accepted: bool,
    pub error_message: Option<String>,
}

/// Chunk information.
#[derive(Debug, Clone)]
pub struct ChunkInfo {
    pub index: u32,
    pub hash: Vec<u8>,
    pub size: u32,
}

/// File manifest request.
#[derive(Debug, Clone)]
pub struct FileManifestRequest {
    pub file_id: String,
    pub file_name: String,
    pub total_size: u64,
    pub mime_type: String,
    pub chunk_size: u32,
    pub total_chunks: u32,
    pub chunks: Vec<ChunkInfo>,
}

/// File manifest response.
#[derive(Debug, Clone)]
pub struct FileManifestResponse {
    pub file_id: String,
    pub accepted: bool,
    pub already_have_chunks: Vec<u32>,
    pub error_reason: Option<String>,
}

/// Chunk acknowledgment.
#[derive(Debug, Clone)]
pub struct ChunkAck {
    pub file_id: String,
    pub index: u32,
    pub hash_match: bool,
}

/// Transfer complete.
#[derive(Debug, Clone)]
pub struct TransferComplete {
    pub file_id: String,
    pub total_hash: Vec<u8>,
}

/// Transfer error.
#[derive(Debug, Clone)]
pub struct TransferError {
    pub file_id: String,
    pub error_code: u32,
    pub message: String,
}

/// Touch event type.
#[derive(Debug, Clone, Copy, PartialEq, Eq, Structural)]
pub enum TouchType {
    Unknown,
    Down,
    Move,
    Up,
    Cancel,
}

/// Touch event. The position, pressure and contact size are `f32` values,
/// carried here as their IEEE-754 bit patterns: the library passes them on
/// and never computes with them.
#[derive(Debug, Clone, Copy, PartialEq, Eq, Structural)]
pub struct TouchEvent {
    pub sequence_id: u64,
    pub timestamp_ms: u64,
    pub touch_type: TouchType,
    pub x_bits: u32,
    pub y_bits: u32,
    pub pressure_bits: u32,
    pub touch_major_bits: u32,
    pub pointer_id: i32,
}

/// Key event type.
#[derive(Debug, Clone, Copy, PartialEq, Eq, Structural)]
pub enum KeyEventType {
    Unknown,
    Down,
    Up,
    Text,
}

/// Key event.
#[derive(Debug, Clone)]
pub struct KeyEvent {
    pub sequence_id: u64,
    pub timestamp_ms: u64,
    pub key_type: KeyEventType,
    pub key_code: i32,
    pub text: Option<String>,
}

/// Heartbeat message.
#[derive(Debug, Clone)]
pub struct Heartbeat {
    pub timestamp_ms: u64,
    pub device_id: String,
}

/// Ping message.
#[derive(Debug, Clone, Copy, PartialEq, Eq, Structural)]
pub struct Ping {
    pub timestamp_ms: u64,
}

/// Pong message.
#[derive(Debug, Clone, Copy, PartialEq, Eq, Structural)]
pub struct Pong {
    pub timestamp_ms: u64,
    pub original_timestamp_ms: u64,
}

/// Clipboard content.
#[derive(Debug, Clone)]
pub struct ClipboardContent {
    pub timestamp_ms: u64,
    pub content: ClipboardData,
}

/// Clipboard data variants.
#[derive(Debug, Clone)]
pub enum ClipboardData {
    Text { text: String },
    Image { image_png: Vec<u8> },
    Url { url: String },
}

/// What a piece of clipboard data holds: text and URLs as characters,
/// images as their PNG bytes.
pub enum ClipboardDataView {
    Text(Seq<char>),
    Image(Seq<u8>),
    Url(Seq<char>),
}

/// Clipboard content as its timestamp and the view of its data.
pub struct ClipboardContentView {
    pub timestamp_ms: u64,
    pub data: ClipboardDataView,
}

impl View for ClipboardData {
    type V = ClipboardDataView;

    open spec fn view(&self) -> ClipboardDataView {
        match self {
            ClipboardData::Text { text } => ClipboardDataView::Text(text@),
            ClipboardData::Image { image_png } => ClipboardDataView::Image(image_png@),
            ClipboardData::Url { url } => ClipboardDataView::Url(url@),
        }
    }
}

impl View for ClipboardContent {
    type V = ClipboardContentView;

    open spec fn view(&self) -> ClipboardContentView {
        ClipboardContentView { timestamp_ms: self.timestamp_ms, data: self.content@ }
    }
}

/// The bytes that a piece of clipboard data is measured and hashed by:
/// UTF-8 for text and URLs, the PNG bytes for images.
pub open spec fn clipboard_bytes(d: ClipboardDataView) -> Seq<u8> {
    match d {
        ClipboardDataView::Text(t) => vstd::utf8::encode_utf8(t),
        ClipboardDataView::Image(b) => b,
        ClipboardDataView::Url(u) => vstd::utf8::encode_utf8(u),
    }
}

impl ClipboardData {
    /// A copy with the same contents.
    pub fn duplicate(&self) -> (r: ClipboardData)
        ensures
            r@ == self@,
    {
        match self {
            ClipboardData::Text { text } => ClipboardData::Text { text: text.as_str().to_string() },
            ClipboardData::Image { image_png } => {
                let copy = copy_range(image_png.as_slice(), 0, image_png.len());
                assert(copy@ =~= image_png@);
                ClipboardData::Image { image_png: copy }
            },
            ClipboardData::Url { url } => ClipboardData::Url { url: url.as_str().to_string() },
        }
    }

    /// The bytes the data is measured and hashed by.
    pub fn as_bytes(&self) -> (r: &[u8])
        ensures
            r@ == clipboard_bytes(self@),
    {
        match self {
            ClipboardData::Text { text } => text.as_str().as_bytes(),
            ClipboardData::Image { image_png } => image_png.as_slice(),
            ClipboardData::Url { url } => url.as_str().as_bytes(),
        }
    }
}

impl ClipboardContent {
    /// A copy with the same timestamp and data.
    pub fn duplicate(&self) -> (r: ClipboardContent)
        ensures
            r@ == self@,
    {
        ClipboardContent { timestamp_ms: self.timestamp_ms, content: self.content.duplicate() }
    }
}

/// Video pixel format.
#[derive(Debug, Clone, Copy, PartialEq, Eq, Structural)]
pub enum PixelFormat {
    Unknown,
    Rgba8888,
    Bgra8888,
    Rgb565,
    Yuv420p,
    Nv12,
}

/// Video configuration message.
#[derive(Debug, Clone)]
pub struct VideoConfig {
    pub width: u32,
    pub height: u32,
    pub pixel_format: PixelFormat,
    pub frame_rate: u32,
    pub codec: String,
    pub bitrate: u32,
}

/// Video frame message.
#[derive(Debug, Clone)]
pub struct VideoFrame {
    pub sequence_id: u64,
    pub timestamp_ms: u64,
    pub width: u32,
    pub height: u32,
    pub pixel_format: PixelFormat,
    pub is_keyframe: bool,
    pub data: Vec<u8>,
}

/// Audio sample format.
#[derive(Debug, Clone, Copy, PartialEq, Eq, Structural)]
pub enum SampleFormat {
    Unknown,
    U8,
    S16,
    S32,
    F32,
}

/// Audio configuration message.
#[derive(Debug, Clone)]
pub struct AudioConfig {
    pub sample_rate: u32,
    pub channels: u32,
    pub sample_format: SampleFormat,
    pub codec: String,
    pub bitrate: u32,
}

/// Audio frame message.
#[derive(Debug, Clone)]
pub struct AudioFrame {
    pub sequence_id: u64,
    pub timestamp_ms: u64,
    pub sample_rate: u32,
    pub channels: u32,
    pub sample_format: SampleFormat,
    pub data: Vec<u8>,
}

} // verus!
