//! Clipboard content carried in protocol frames.
//!
//! The content travels as the payload of a `ClipboardContent` frame, in its
//! JSON encoding (a compact JSON object), with the source device's ID put
//! first in that object as a `source_device_id` member. Encoding and
//! decoding the content's JSON is done around this module, which inserts
//! and reads back the source device's ID, frames the bytes and checks the
//! frame type on the way back.

use vstd::prelude::*;
use crate::clipboard::error::ClipboardError;
use crate::clock::unix_time_ms;
pub use crate::clipboard::manager::clipboard_data_size;
use crate::bytes_util::{append_bytes, copy_range};
use crate::clipboard::json_string::{
    json_escaped, lemma_unescape_escaped, lemma_unescape_stops, push_escaped, read_escaped, unescape, QUOTE,
};
use crate::protocol::{ClipboardContent, ClipboardData, ClipboardDataView, Frame, FrameType};
use vstd::utf8::{decode_utf8, encode_utf8, valid_utf8};

verus! {

broadcast use vstd::string::to_string_from_display_ensures_for_str;

/// Magic number prefix for clipboard frame content transport ("MMCC").
pub const CLIPBOARD_MAGIC: u32 = 0x4D4D4343;

/// Clipboard content with the device it came from.
#[derive(Debug, Clone)]
pub struct ClipboardFrame {
    pub content: ClipboardContent,
    pub source_device_id: String,
}

/// The message of the error for a frame of another type.
pub open spec fn wrong_frame_message(t: FrameType) -> Seq<char> {
    "Expected ClipboardContent frame, got "@ + t.label()
}

/// The start of a payload that carries its source device's ID: the
/// opening of the JSON object and of its `source_device_id` member.
pub const SOURCE_ID_PREFIX: &'static str = "{\"source_device_id\":\"";

/// `{`
pub const OPEN_BRACE: u8 = 0x7B;

/// `}`
pub const CLOSE_BRACE: u8 = 0x7D;

/// `,`
pub const COMMA: u8 = 0x2C;

/// The bytes of `SOURCE_ID_PREFIX`.
pub open spec fn id_prefix() -> Seq<u8> {
    encode_utf8(SOURCE_ID_PREFIX@)
}

/// The payload for content encoded as the JSON object `content` (which
/// opens with `{`) from the device whose ID is `id` (UTF-8): the object
/// with a first member `"source_device_id"` holding the ID.
pub open spec fn framed_payload(id: Seq<u8>, content: Seq<u8>) -> Seq<u8> {
    id_prefix() + json_escaped(id) + seq![QUOTE] + if content.len() >= 2 && content[1] == CLOSE_BRACE {
        content.skip(1)
    } else {
        seq![COMMA] + content.skip(1)
    }
}

/// The source device's ID (UTF-8) and the content's JSON that a payload
/// carries. A payload that does not open with the `source_device_id`
/// member is content alone, with no source device (an empty ID); one that
/// opens with it but whose ID is not a well-formed string followed by `,`
/// or `}` is `None`.
pub open spec fn parse_payload(p: Seq<u8>) -> Option<(Seq<u8>, Seq<u8>)> {
    let n = id_prefix().len() as int;
    if p.len() >= n && p.take(n) == id_prefix() {
        match unescape(p.skip(n)) {
            Some((d, k)) => {
                let rest = p.skip(n + k + 1);
                if rest.len() >= 1 && rest[0] == COMMA {
                    Some((d, seq![OPEN_BRACE] + rest.skip(1)))
                } else if rest.len() >= 1 && rest[0] == CLOSE_BRACE {
                    Some((d, seq![OPEN_BRACE] + rest))
                } else {
                    None
                }
            },
            None => None,
        }
    } else {
        Some((Seq::empty(), p))
    }
}

/// Reading a payload gives back the source device's ID and the content it
/// was made from, and the ID's bytes are well-formed UTF-8 for the same
/// text.
pub proof fn lemma_source_id_roundtrip(id: Seq<char>, content: Seq<u8>)
    requires
        content.len() >= 1,
        content[0] == OPEN_BRACE,
    ensures
        parse_payload(framed_payload(encode_utf8(id), content)) == Some((encode_utf8(id), content)),
        valid_utf8(encode_utf8(id)),
        decode_utf8(encode_utf8(id)) == id,
{
    vstd::utf8::encode_utf8_valid_utf8(id);
    vstd::utf8::encode_utf8_decode_utf8(id);
    let b = encode_utf8(id);
    let n = id_prefix().len() as int;
    let tail = if content.len() >= 2 && content[1] == CLOSE_BRACE {
        content.skip(1)
    } else {
        seq![COMMA] + content.skip(1)
    };
    let p = framed_payload(b, content);
    assert(p =~= id_prefix() + (json_escaped(b) + seq![QUOTE] + tail));
    assert(p.take(n) =~= id_prefix());
    assert(p.skip(n) =~= json_escaped(b) + seq![QUOTE] + tail);
    lemma_unescape_escaped(b, tail);
    let k = json_escaped(b).len() as int;
    assert(p.skip(n + k + 1) =~= tail);
    if content.len() >= 2 && content[1] == CLOSE_BRACE {
        assert(seq![OPEN_BRACE] + content.skip(1) =~= content);
    } else {
        assert(tail.skip(1) =~= content.skip(1));
        assert(seq![OPEN_BRACE] + content.skip(1) =~= content);
    }
}

/// `String::from_utf8`: the text that the bytes encode, when they are
/// well-formed UTF-8, else `None`.
#[verifier::external_body]
fn utf8_string(bytes: Vec<u8>) -> (r: Option<String>)
    ensures
        r is Some <==> valid_utf8(bytes@),
        r matches Some(s) ==> s@ == decode_utf8(bytes@),
{
    String::from_utf8(bytes).ok()
}

/// Whether `p` opens with `q`.
fn starts_with_bytes(p: &[u8], q: &[u8]) -> (r: bool)
    ensures
        r == (p@.len() >= q@.len() && p@.take(q@.len() as int) == q@),
{
    if p.len() < q.len() {
        return false;
    }
    let mut i: usize = 0;
    while i < q.len()
        invariant
            i <= q@.len() <= p@.len(),
            forall|j: int| 0 <= j < i ==> p@[j] == q@[j],
        decreases q@.len() - i,
    {
        if p[i] != q[i] {
            assert(p@.take(q@.len() as int)[i as int] != q@[i as int]);
            return false;
        }
        i = i + 1;
    }
    assert(p@.take(q@.len() as int) =~= q@);
    true
}

impl ClipboardFrame {
    pub fn new(content: ClipboardContent, source_device_id: String) -> (r: ClipboardFrame)
        ensures
            r.content == content,
            r.source_device_id == source_device_id,
    {
        ClipboardFrame { content, source_device_id }
    }

    /// Frames the content, encoded as a compact JSON object (as
    /// `serde_json::to_vec` writes it), with the source device's ID: a
    /// `ClipboardContent` frame whose payload is that object with a first
    /// member `"source_device_id"` holding the ID. Content that is not a
    /// JSON object (it does not open with `{`) is refused with a
    /// `Serialization` error.
    pub fn to_frame(&self, encoded_content: Vec<u8>) -> (r: Result<Frame, ClipboardError>)
        ensures
            r is Ok <==> (encoded_content@.len() >= 1 && encoded_content@[0] == OPEN_BRACE),
            r matches Err(e) ==> e is Serialization,
            r matches Ok(f) ==> f.frame_type == FrameType::ClipboardContent && f.payload@ == framed_payload(
                encode_utf8(self.source_device_id@),
                encoded_content@,
            ),
    {
        if encoded_content.len() == 0 || encoded_content[0] != OPEN_BRACE {
            return Err(ClipboardError::Serialization("Clipboard content is not a JSON object".to_string()));
        }
        let mut payload: Vec<u8> = Vec::new();
        append_bytes(&mut payload, SOURCE_ID_PREFIX.as_bytes());
        push_escaped(&mut payload, self.source_device_id.as_str().as_bytes());
        payload.push(QUOTE);
        let ghost head = payload@;
        if encoded_content.len() >= 2 && encoded_content[1] == CLOSE_BRACE {
            let rest = copy_range(encoded_content.as_slice(), 1, encoded_content.len());
            append_bytes(&mut payload, rest.as_slice());
        } else {
            payload.push(COMMA);
            let rest = copy_range(encoded_content.as_slice(), 1, encoded_content.len());
            append_bytes(&mut payload, rest.as_slice());
        }
        assert(payload@ =~= framed_payload(encode_utf8(self.source_device_id@), encoded_content@));
        Ok(Frame::new(FrameType::ClipboardContent, payload))
    }

    /// The source device's ID and the encoded content (a JSON object) that
    /// a frame carries: an `InvalidContent` error for a frame of any other
    /// type; a `Serialization` error when the ID member is malformed or
    /// its bytes are not UTF-8. A payload with no ID member gives an empty
    /// ID and the payload itself.
    pub fn from_frame(frame: &Frame) -> (r: Result<(String, Vec<u8>), ClipboardError>)
        ensures
            frame.frame_type != FrameType::ClipboardContent ==> (r matches Err(e) && e matches ClipboardError::InvalidContent(m)
                && m@ == wrong_frame_message(frame.frame_type)),
            frame.frame_type == FrameType::ClipboardContent ==> match parse_payload(frame.payload@) {
                Some((id, content)) => if valid_utf8(id) {
                    r matches Ok((s, c)) && s@ == decode_utf8(id) && c@ == content
                } else {
                    r matches Err(e) && e is Serialization
                },
                None => r matches Err(e) && e is Serialization,
            },
    {
        if frame.frame_type != FrameType::ClipboardContent {
            let mut msg = "Expected ClipboardContent frame, got ".to_string();
            msg.append(frame.frame_type.name());
            return Err(ClipboardError::InvalidContent(msg));
        }
        let p = frame.payload.as_slice();
        let prefix = SOURCE_ID_PREFIX.as_bytes();
        let n = prefix.len();
        if !starts_with_bytes(p, prefix) {
            let content = copy_range(p, 0, p.len());
            assert(content@ =~= p@);
            return Ok((String::new(), content));
        }
        match read_escaped(p, n) {
            Some((id, k)) => {
                proof {
                    lemma_unescape_stops(p@.skip(n as int));
                    let u = unescape(p@.skip(n as int));
                    assert(u is Some);
                    assert(k == (u->0).1);
                    assert(k < p@.len() - n);
                    assert(p@.len() == p.len());
                    assert(n + k + 1 <= p.len());
                }
                let pos = n + k + 1;
                let mut content: Vec<u8> = Vec::new();
                content.push(OPEN_BRACE);
                if pos < p.len() && p[pos] == COMMA {
                    let rest = copy_range(p, pos + 1, p.len());
                    append_bytes(&mut content, rest.as_slice());
                    assert(p@.skip(pos as int).skip(1) =~= rest@);
                } else if pos < p.len() && p[pos] == CLOSE_BRACE {
                    let rest = copy_range(p, pos, p.len());
                    append_bytes(&mut content, rest.as_slice());
                    assert(p@.skip(pos as int) =~= rest@);
                } else {
                    return Err(ClipboardError::Serialization("Malformed source device id".to_string()));
                }
                match utf8_string(id) {
                    Some(s) => Ok((s, content)),
                    None => Err(ClipboardError::Serialization("Source device id is not UTF-8".to_string())),
                }
            },
            None => Err(ClipboardError::Serialization("Malformed source device id".to_string())),
        }
    }

    /// A text frame stamped with the current time.
    pub fn text(text: &str, source_device_id: &str) -> (r: ClipboardFrame)
        ensures
            r.content.content@ == ClipboardDataView::Text(text@),
            r.source_device_id@ == source_device_id@,
    {
        let timestamp_ms = unix_time_ms();
        Self::new(
            ClipboardContent { timestamp_ms, content: ClipboardData::Text { text: text.to_string() } },
            source_device_id.to_string(),
        )
    }

    /// A URL frame stamped with the current time.
    pub fn url(url: &str, source_device_id: &str) -> (r: ClipboardFrame)
        ensures
            r.content.content@ == ClipboardDataView::Url(url@),
            r.source_device_id@ == source_device_id@,
    {
        let timestamp_ms = unix_time_ms();
        Self::new(
            ClipboardContent { timestamp_ms, content: ClipboardData::Url { url: url.to_string() } },
            source_device_id.to_string(),
        )
    }

    /// An image frame stamped with the current time.
    pub fn image(image_png: Vec<u8>, source_device_id: &str) -> (r: ClipboardFrame)
        ensures
            r.content.content@ == ClipboardDataView::Image(image_png@),
            r.source_device_id@ == source_device_id@,
    {
        let timestamp_ms = unix_time_ms();
        Self::new(
            ClipboardContent { timestamp_ms, content: ClipboardData::Image { image_png } },
            source_device_id.to_string(),
        )
    }
}

} // verus!
