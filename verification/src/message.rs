//! The application chat message and its wire codec.
//!
//! A message is framed as four parts: the timestamp as eight little-endian
//! bytes, the byte length of the topic as eight little-endian bytes, the
//! topic in UTF-8, and the text in UTF-8 to the end of the payload.  Any
//! encoding works as long as every peer uses the same one; this one is
//! length-prefixed so that no character of the topic or the text needs
//! escaping.

use vstd::prelude::*;
use vstd::bytes::*;
use vstd::slice::slice_subrange;
use vstd::string::*;
use vstd::utf8::{
    valid_utf8,
    decode_utf8,
    encode_utf8,
    encode_utf8_valid_utf8,
    encode_utf8_decode_utf8,
    decode_utf8_encode_utf8,
};
use crate::error::DecodeError;

verus! {

/// A chat message as carried over the pub/sub transport: the text itself,
/// the moment it was sent (unix seconds), and the topic it belongs to.
#[derive(Debug)]
pub struct Message {
    data: String,
    timestamp: u64,
    topic: String,
}

/// The mathematical value of a [`Message`]: its three fields as sequences
/// of characters and an integer.
pub struct MessageView {
    pub data: Seq<char>,
    pub timestamp: u64,
    pub topic: Seq<char>,
}

impl View for Message {
    type V = MessageView;

    closed spec fn view(&self) -> MessageView {
        MessageView { data: self.data@, timestamp: self.timestamp, topic: self.topic@ }
    }
}

impl Clone for Message {
    fn clone(&self) -> (r: Self)
        ensures
            r@ == self@,
    {
        Message {
            data: self.data.clone(),
            timestamp: self.timestamp,
            topic: self.topic.clone(),
        }
    }
}

/// The bytes that carry `m` on the wire: timestamp, topic length, topic,
/// text.
pub open spec fn spec_encode(m: MessageView) -> Seq<u8> {
    spec_u64_to_le_bytes(m.timestamp) + spec_u64_to_le_bytes(encode_utf8(m.topic).len() as u64)
        + encode_utf8(m.topic) + encode_utf8(m.data)
}

/// Whether the payload ends before the frame says it may: fewer than the
/// sixteen header bytes, or fewer topic bytes than the header announces.
pub open spec fn spec_is_truncated(b: Seq<u8>) -> bool {
    ||| b.len() < 16
    ||| b.len() - 16 < spec_u64_from_le_bytes(b.subrange(8, 16)) as int
}

/// The message a payload decodes to, or `None` where the payload is
/// truncated or a half is not UTF-8.
pub open spec fn spec_decode(b: Seq<u8>) -> Option<MessageView> {
    if spec_is_truncated(b) {
        None
    } else {
        let timestamp = spec_u64_from_le_bytes(b.subrange(0, 8));
        let k = spec_u64_from_le_bytes(b.subrange(8, 16)) as int;
        let topic_bytes = b.subrange(16, 16 + k);
        let data_bytes = b.subrange(16 + k, b.len() as int);
        if valid_utf8(topic_bytes) && valid_utf8(data_bytes) {
            Some(
                MessageView {
                    data: decode_utf8(data_bytes),
                    timestamp,
                    topic: decode_utf8(topic_bytes),
                },
            )
        } else {
            None
        }
    }
}

/// Relies on `core::str::from_utf8` (and `str::to_string`): it succeeds
/// exactly on valid UTF-8, and the string it returns holds the characters
/// those bytes encode.
#[verifier::external_body]
fn utf8_to_string(bytes: &[u8]) -> (r: Option<String>)
    ensures
        r is Some <==> valid_utf8(bytes@),
        r matches Some(s) ==> s@ == decode_utf8(bytes@),
{
    match core::str::from_utf8(bytes) {
        Ok(s) => Some(s.to_string()),
        Err(_) => None,
    }
}

impl Message {
    pub fn new(data: String, timestamp: u64, topic: String) -> (r: Message)
        ensures
            r@ == (MessageView { data: data@, timestamp, topic: topic@ }),
    {
        Message { data, timestamp, topic }
    }

    pub fn data(&self) -> (r: &String)
        ensures
            r@ == self@.data,
    {
        &self.data
    }

    pub fn timestamp(&self) -> (r: &u64)
        ensures
            *r == self@.timestamp,
    {
        &self.timestamp
    }

    pub fn topic(&self) -> (r: &String)
        ensures
            r@ == self@.topic,
    {
        &self.topic
    }

    /// Frames the message for the wire.
    pub fn serialize_to_bytes(&self) -> (r: Vec<u8>)
        ensures
            r@ == spec_encode(self@),
    {
        let mut out = u64_to_le_bytes(self.timestamp);
        let mut topic_bytes = self.topic.as_str().as_bytes_vec();
        let mut len_prefix = u64_to_le_bytes(topic_bytes.len() as u64);
        out.append(&mut len_prefix);
        out.append(&mut topic_bytes);
        let mut data_bytes = self.data.as_str().as_bytes_vec();
        out.append(&mut data_bytes);
        assert(out@ =~= spec_encode(self@));
        out
    }

    /// Reads a message back out of a wire payload.  Fails exactly where
    /// [`spec_decode`] gives nothing: on a truncated frame, or where a half
    /// is not UTF-8.
    pub fn deserialize_from_bytes(bytes: &[u8]) -> (r: Result<Message, DecodeError>)
        ensures
            r matches Ok(m) ==> spec_decode(bytes@) == Some(m@),
            r is Err <==> spec_decode(bytes@) is None,
            r == Err::<Message, DecodeError>(DecodeError::Truncated) <==> spec_is_truncated(
                bytes@,
            ),
    {
        if bytes.len() < 16 {
            return Err(DecodeError::Truncated);
        }
        let timestamp = u64_from_le_bytes(slice_subrange(bytes, 0, 8));
        let k64 = u64_from_le_bytes(slice_subrange(bytes, 8, 16));
        if ((bytes.len() - 16) as u64) < k64 {
            return Err(DecodeError::Truncated);
        }
        let k = k64 as usize;
        let topic_slice = slice_subrange(bytes, 16, 16 + k);
        let data_slice = slice_subrange(bytes, 16 + k, bytes.len());
        let topic = match utf8_to_string(topic_slice) {
            Some(s) => s,
            None => {
                return Err(DecodeError::InvalidUtf8);
            },
        };
        let data = match utf8_to_string(data_slice) {
            Some(s) => s,
            None => {
                return Err(DecodeError::InvalidUtf8);
            },
        };
        Ok(Message { data, timestamp, topic })
    }
}

/// Round trip one way: a framed message decodes back to itself.  The one
/// premise is the machine limit that the topic's byte length fits the
/// length prefix; every topic held in a [`Message`] satisfies it.
pub proof fn lemma_encode_decode(m: MessageView)
    requires
        encode_utf8(m.topic).len() <= u64::MAX,
    ensures
        spec_decode(spec_encode(m)) == Some(m),
{
    lemma_auto_spec_u64_to_from_le_bytes();
    broadcast use encode_utf8_valid_utf8, encode_utf8_decode_utf8;

    let a = spec_u64_to_le_bytes(m.timestamp);
    let t = encode_utf8(m.topic);
    let b = spec_u64_to_le_bytes(t.len() as u64);
    let d = encode_utf8(m.data);
    let e = spec_encode(m);
    assert(e.subrange(0, 8) =~= a);
    assert(e.subrange(8, 16) =~= b);
    let k = spec_u64_from_le_bytes(e.subrange(8, 16)) as int;
    assert(k == t.len());
    assert(e.subrange(16, 16 + k) =~= t);
    assert(e.subrange(16 + k, e.len() as int) =~= d);
    assert(spec_decode(e) == Some(
        MessageView { data: m.data, timestamp: m.timestamp, topic: m.topic },
    ));
    assert(m == (MessageView { data: m.data, timestamp: m.timestamp, topic: m.topic }));
}

/// Round trip the other way: a payload that decodes at all is exactly the
/// framing of the message it decodes to, so no two distinct payloads give
/// the same message back.
pub proof fn lemma_decode_encode(b: Seq<u8>)
    ensures
        spec_decode(b) matches Some(v) ==> spec_encode(v) == b,
{
    lemma_auto_spec_u64_to_from_le_bytes();
    if spec_decode(b) is Some {
        let v = spec_decode(b)->Some_0;
        let k = spec_u64_from_le_bytes(b.subrange(8, 16)) as int;
        let topic_bytes = b.subrange(16, 16 + k);
        let data_bytes = b.subrange(16 + k, b.len() as int);
        decode_utf8_encode_utf8(topic_bytes);
        decode_utf8_encode_utf8(data_bytes);
        assert(encode_utf8(v.topic) == topic_bytes);
        assert(encode_utf8(v.data) == data_bytes);
        assert(spec_encode(v) =~= b);
    }
}

} // verus!
